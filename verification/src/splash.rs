//! The splash screen: where the banner goes in a frame of a given size.

use crate::screen::TextStyle;
use crate::text::texts;
use crate::theme::Theme;
use vstd::prelude::*;
use vstd::string::StringExecFns;

verus! {

/// How long the splash screen stays up before the first question, in
/// seconds.
pub const SPLASH_SECONDS: u64 = 3;

/// A rectangle of terminal cells.
#[derive(Clone, Copy, Debug, PartialEq, Eq, Structural)]
pub struct Area {
    pub x: u16,
    pub y: u16,
    pub width: u16,
    pub height: u16,
}

/// One line of the banner and the cells it is drawn into.
#[derive(Clone, Debug)]
pub struct SplashLine {
    pub text: String,
    pub area: Area,
}

/// The splash screen for one frame size.
#[derive(Clone, Debug)]
pub struct Splash {
    /// The banner lines that fit, top to bottom.
    pub lines: Vec<SplashLine>,
    /// The style every line is drawn in.
    pub style: TextStyle,
}

/// A [`SplashLine`] as plain data.
#[verifier::ext_equal]
pub struct SplashLineView {
    pub text: Seq<char>,
    pub area: Area,
}

impl View for SplashLine {
    type V = SplashLineView;

    open spec fn view(&self) -> SplashLineView {
        SplashLineView { text: self.text@, area: self.area }
    }
}

/// A list of splash lines as plain data.
pub open spec fn lines_view(lines: Seq<SplashLine>) -> Seq<SplashLineView> {
    lines.map_values(|line: SplashLine| line@)
}

/// The banner, line by line. It opens with an empty line.
pub open spec fn banner_lines() -> Seq<Seq<char>> {
    seq![
        ""@,
        "    _____                .__      .____    .__                     "@,
        "   /  _  \\   _______  __ |  |__   |    |   |__| ____  __ _____  ___"@,
        "  /  /_\\  \\ /___/  / |  ||  |  \\  |    |   |  |/    \\|  |  \\  \\/  /"@,
        " /    |    <  /\\  /_/  ||   Y  \\ |    |___|  |   |  \\  |  />    < "@,
        "/\\____|__  /\\___  /|____|___|  / |_______ \\__|___|  /____//__/\\_ \\"@,
        "        \\/     \\/           \\/          \\/       \\/            \\/"@,
    ]
}

/// The length of the longest of `lines`.
pub open spec fn max_width(lines: Seq<Seq<char>>) -> nat
    decreases lines.len(),
{
    if lines.len() == 0 {
        0
    } else {
        let rest = max_width(lines.drop_last());
        if lines.last().len() > rest {
            lines.last().len()
        } else {
            rest
        }
    }
}

/// The margin that centers a block of size `block` in a frame of size
/// `frame`: half of what is left over, rounded down, and nothing if the
/// block does not fit.
pub open spec fn margin(frame: int, block: int) -> int {
    if frame > block {
        (frame - block) / 2
    } else {
        0
    }
}

/// How many of the banner's `count` lines are drawn in a frame of the given
/// height: those that start above the frame's lower edge.
pub open spec fn lines_drawn(count: int, frame_height: int) -> int {
    let room = frame_height - margin(frame_height, count);
    if count < room {
        count
    } else {
        room
    }
}

/// Where line `i` of `lines` goes: one row high, `i` rows below the top
/// margin, behind the left margin that centers the longest line, and as
/// wide as the longest line or as the frame leaves room for.
pub open spec fn placed_line(
    lines: Seq<Seq<char>>,
    frame_width: int,
    frame_height: int,
    i: int,
) -> SplashLineView {
    let block_width = max_width(lines) as int;
    let left = margin(frame_width, block_width);
    let top = margin(frame_height, lines.len() as int);
    SplashLineView {
        text: lines[i],
        area: Area {
            x: left as u16,
            y: (top + i) as u16,
            width: (if block_width < frame_width - left {
                block_width
            } else {
                frame_width - left
            }) as u16,
            height: 1,
        },
    }
}

/// The lines of `lines` that are drawn in a frame of the given size, each
/// with its place.
pub open spec fn placed(
    lines: Seq<Seq<char>>,
    frame_width: int,
    frame_height: int,
) -> Seq<SplashLineView> {
    Seq::new(
        lines_drawn(lines.len() as int, frame_height) as nat,
        |i: int| placed_line(lines, frame_width, frame_height, i),
    )
}

/// The banner has seven lines, the longest of them 67 characters long.
pub proof fn banner_measures()
    ensures
        banner_lines().len() == 7,
        max_width(banner_lines()) == 67,
{
    reveal_strlit("");
    reveal_strlit("    _____                .__      .____    .__                     ");
    reveal_strlit("   /  _  \\   _______  __ |  |__   |    |   |__| ____  __ _____  ___");
    reveal_strlit("  /  /_\\  \\ /___/  / |  ||  |  \\  |    |   |  |/    \\|  |  \\  \\/  /");
    reveal_strlit(" /    |    <  /\\  /_/  ||   Y  \\ |    |___|  |   |  \\  |  />    < ");
    reveal_strlit("/\\____|__  /\\___  /|____|___|  / |_______ \\__|___|  /____//__/\\_ \\");
    reveal_strlit("        \\/     \\/           \\/          \\/       \\/            \\/");
    reveal_with_fuel(max_width, 8);
}

/// Builds the banner.
pub fn banner() -> (lines: Vec<String>)
    ensures
        texts(lines@) == banner_lines(),
{
    let mut lines: Vec<String> = Vec::new();
    lines.push(String::from_str(""));
    lines.push(String::from_str("    _____                .__      .____    .__                     "));
    lines.push(String::from_str("   /  _  \\   _______  __ |  |__   |    |   |__| ____  __ _____  ___"));
    lines.push(String::from_str("  /  /_\\  \\ /___/  / |  ||  |  \\  |    |   |  |/    \\|  |  \\  \\/  /"));
    lines.push(String::from_str(" /    |    <  /\\  /_/  ||   Y  \\ |    |___|  |   |  \\  |  />    < "));
    lines.push(String::from_str("/\\____|__  /\\___  /|____|___|  / |_______ \\__|___|  /____//__/\\_ \\"));
    lines.push(String::from_str("        \\/     \\/           \\/          \\/       \\/            \\/"));
    assert(texts(lines@) =~= banner_lines());
    lines
}

/// The number of characters of the longest of `lines`.
fn widest(lines: &Vec<String>) -> (width: usize)
    ensures
        width == max_width(texts(lines@)),
{
    let mut width: usize = 0;
    let mut i: usize = 0;
    assert(texts(lines@).take(0) =~= Seq::<Seq<char>>::empty());
    while i < lines.len()
        invariant
            i <= lines.len(),
            width == max_width(texts(lines@).take(i as int)),
        decreases lines.len() - i,
    {
        assert(texts(lines@).take(i + 1).drop_last() =~= texts(lines@).take(i as int));
        let len = lines[i].as_str().unicode_len();
        if len > width {
            width = len;
        }
        i += 1;
    }
    assert(texts(lines@).take(lines.len() as int) =~= texts(lines@));
    width
}

/// The margin that centers a block in a frame.
fn centered(frame: u16, block: u16) -> (start: u16)
    ensures
        start == margin(frame as int, block as int),
{
    if frame > block {
        (frame - block) / 2
    } else {
        0
    }
}

/// Every line that is drawn lies inside the frame: it starts above the
/// frame's lower edge, is one row high, and ends at or before the frame's
/// right edge.
pub proof fn placed_lines_lie_inside_frame(
    lines: Seq<Seq<char>>,
    frame_width: int,
    frame_height: int,
    i: int,
)
    requires
        0 <= frame_width <= u16::MAX,
        0 <= frame_height <= u16::MAX,
        0 <= i < placed(lines, frame_width, frame_height).len(),
    ensures
        ({
            let area = placed(lines, frame_width, frame_height)[i].area;
            &&& area.height == 1
            &&& area.y == margin(frame_height, lines.len() as int) + i
            &&& area.y < frame_height
            &&& area.x == margin(frame_width, max_width(lines) as int)
            &&& area.x + area.width <= frame_width
        }),
{
}

/// Places `lines` in a frame of the given size.
fn place(
    lines: &Vec<String>,
    frame_width: u16,
    frame_height: u16,
) -> (placed_lines: Vec<SplashLine>)
    requires
        lines.len() <= u16::MAX,
        max_width(texts(lines@)) <= u16::MAX,
    ensures
        lines_view(placed_lines@) == placed(
            texts(lines@),
            frame_width as int,
            frame_height as int,
        ),
{
    let block_width = widest(lines) as u16;
    let block_height = lines.len() as u16;
    let left = centered(frame_width, block_width);
    let top = centered(frame_height, block_height);
    let width = if block_width < frame_width - left {
        block_width
    } else {
        frame_width - left
    };
    let ghost target = placed(texts(lines@), frame_width as int, frame_height as int);
    let mut placed_lines: Vec<SplashLine> = Vec::new();
    let mut i: usize = 0;
    while i < lines.len() && top + (i as u16) < frame_height
        invariant
            i <= lines.len() <= u16::MAX,
            block_width == max_width(texts(lines@)),
            left == margin(frame_width as int, block_width as int),
            top == margin(frame_height as int, lines.len() as int),
            width == if block_width < frame_width - left {
                block_width as int
            } else {
                frame_width - left
            },
            target == placed(texts(lines@), frame_width as int, frame_height as int),
            i <= target.len(),
            lines_view(placed_lines@).len() == i,
            forall|k: int| 0 <= k < i ==> #[trigger] lines_view(placed_lines@)[k] == target[k],
        decreases lines.len() - i,
    {
        let ghost before = lines_view(placed_lines@);
        let line = SplashLine {
            text: lines[i].clone(),
            area: Area { x: left, y: top + (i as u16), width, height: 1 },
        };
        placed_lines.push(line);
        assert(lines_view(placed_lines@) =~= before.push(line@));
        i += 1;
    }
    assert(lines_view(placed_lines@) =~= target);
    placed_lines
}

/// Lays the banner out in a frame of the given size: centered both ways,
/// one row per line, drawn in the theme's accent color. Lines that would
/// start below the frame are left out, and no line reaches past the frame's
/// right edge, so everything that comes back can be drawn as it is.
pub fn splash(frame_width: u16, frame_height: u16, theme: Theme) -> (splash: Splash)
    ensures
        lines_view(splash.lines@) == placed(
            banner_lines(),
            frame_width as int,
            frame_height as int,
        ),
        splash.style == (TextStyle { fg: theme.palette().accent, bold: false }),
        forall|i: int|
            0 <= i < splash.lines@.len() ==> {
                let area = (#[trigger] splash.lines@[i]).area;
                &&& area.height == 1
                &&& area.y < frame_height
                &&& area.x + area.width <= frame_width
            },
{
    let lines = banner();
    proof {
        banner_measures();
    }
    let placed_lines = place(&lines, frame_width, frame_height);
    assert forall|i: int| 0 <= i < placed_lines@.len() implies {
        let area = (#[trigger] placed_lines@[i]).area;
        &&& area.height == 1
        &&& area.y < frame_height
        &&& area.x + area.width <= frame_width
    } by {
        assert(placed_lines@[i]@ == lines_view(placed_lines@)[i]);
        placed_lines_lie_inside_frame(banner_lines(), frame_width as int, frame_height as int, i);
    }
    Splash { lines: placed_lines, style: TextStyle { fg: theme.palette().accent, bold: false } }
}

} // verus!
