use vstd::prelude::*;
use vstd::string::StringExecFns;

verus! {

/// A rectangle of terminal cells: the viewport a frame is painted into.
#[derive(Clone, Copy, Debug, PartialEq, Eq, Structural)]
pub struct Viewport {
    pub x: u16,
    pub y: u16,
    pub width: u16,
    pub height: u16,
}

impl Viewport {
    pub fn new(x: u16, y: u16, width: u16, height: u16) -> (r: Viewport)
        ensures
            r == (Viewport { x, y, width, height }),
    {
        Viewport { x, y, width, height }
    }
}

/// The foreground colours a tab bar uses.
#[derive(Clone, Copy, Debug, PartialEq, Eq, Structural)]
pub enum Color {
    White,
    Yellow,
}

/// What to paint for one tick: a bordered, titled tab bar covering an area.
#[derive(Clone, Debug, PartialEq, Eq)]
pub struct FrameDescription {
    /// The rectangle the tab bar covers.
    pub area: Viewport,
    /// The labels of the tabs, left to right.
    pub titles: Vec<String>,
    /// The title written on the surrounding border.
    pub block_title: String,
    /// Whether the border is drawn on all four sides.
    pub bordered: bool,
    /// The colour of ordinary text.
    pub text_color: Color,
    /// The colour of the highlighted tab.
    pub highlight_color: Color,
    /// The glyph drawn between two labels.
    pub divider: String,
}

/// The mathematical content of a frame description.
pub struct FrameView {
    pub area: Viewport,
    pub titles: Seq<Seq<char>>,
    pub block_title: Seq<char>,
    pub bordered: bool,
    pub text_color: Color,
    pub highlight_color: Color,
    pub divider: Seq<char>,
}

impl View for FrameDescription {
    type V = FrameView;

    open spec fn view(&self) -> FrameView {
        FrameView {
            area: self.area,
            titles: self.titles@.map_values(|s: String| s@),
            block_title: self.block_title@,
            bordered: self.bordered,
            text_color: self.text_color,
            highlight_color: self.highlight_color,
            divider: self.divider@,
        }
    }
}

/// The number of tabs in the bar.
pub const TAB_COUNT: usize = 4;

/// The labels of all tabs, left to right: `Tab1` to `Tab4`.
pub open spec fn tab_labels() -> Seq<Seq<char>> {
    seq![
        seq!['T', 'a', 'b', '1'],
        seq!['T', 'a', 'b', '2'],
        seq!['T', 'a', 'b', '3'],
        seq!['T', 'a', 'b', '4'],
    ]
}

/// The frame the tab bar shell paints into `area`.
pub open spec fn tab_bar(area: Viewport) -> FrameView {
    FrameView {
        area,
        titles: tab_labels(),
        block_title: seq!['T', 'a', 'b', 's'],
        bordered: true,
        text_color: Color::White,
        highlight_color: Color::Yellow,
        divider: seq!['\u{2022}'],
    }
}

impl FrameView {
    /// A description a renderer can paint whatever the size of its area:
    /// at least one tab, every label, the title and the divider non-empty.
    pub open spec fn well_formed(self) -> bool {
        &&& self.titles.len() > 0
        &&& forall|i: int| 0 <= i < self.titles.len() ==> #[trigger] self.titles[i].len() > 0
        &&& self.block_title.len() > 0
        &&& self.divider.len() > 0
    }
}

/// Building a frame has no hidden state: two builds for the same viewport
/// describe the same frame.
pub proof fn lemma_build_frame_deterministic(a: Viewport, b: Viewport)
    requires
        a == b,
    ensures
        tab_bar(a) == tab_bar(b),
{
}

/// Every viewport, a degenerate one of width or height zero included, gets a
/// well-formed frame covering exactly that viewport.
pub proof fn lemma_tab_bar_well_formed(area: Viewport)
    ensures
        tab_bar(area).well_formed(),
        tab_bar(area).area == area,
{
}

/// Builds the tab bar for one tick, covering the whole of `area`.
pub fn build_frame(area: Viewport) -> (r: FrameDescription)
    ensures
        r@ == tab_bar(area),
        r@.well_formed(),
{
    let mut titles: Vec<String> = Vec::new();
    titles.push(String::from_str("Tab1"));
    titles.push(String::from_str("Tab2"));
    titles.push(String::from_str("Tab3"));
    titles.push(String::from_str("Tab4"));
    let r = FrameDescription {
        area,
        titles,
        block_title: String::from_str("Tabs"),
        bordered: true,
        text_color: Color::White,
        highlight_color: Color::Yellow,
        divider: String::from_str("\u{2022}"),
    };
    proof {
        reveal_strlit("Tab1");
        reveal_strlit("Tab2");
        reveal_strlit("Tab3");
        reveal_strlit("Tab4");
        reveal_strlit("Tabs");
        reveal_strlit("\u{2022}");
        assert(r@.titles[0] == tab_labels()[0]);
        assert(r@.titles[1] == tab_labels()[1]);
        assert(r@.titles[2] == tab_labels()[2]);
        assert(r@.titles[3] == tab_labels()[3]);
        assert(r@.titles =~= tab_labels());
        assert(r@.block_title =~= tab_bar(area).block_title);
        assert(r@.divider =~= tab_bar(area).divider);
    }
    r
}

} // verus!
