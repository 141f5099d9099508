//! Text formatting for the diagnostic console: decimal rendering, the
//! five-character right-aligned raw-state fields, and the content of each
//! console line, addressed through a closed set of named channels.

use vstd::prelude::*;
use vstd::string::StringExecFns;

verus! {

/// The decimal digit character for `d`, for `d < 10`.
pub open spec fn digit_char(d: nat) -> char {
    if d == 0 {
        '0'
    } else if d == 1 {
        '1'
    } else if d == 2 {
        '2'
    } else if d == 3 {
        '3'
    } else if d == 4 {
        '4'
    } else if d == 5 {
        '5'
    } else if d == 6 {
        '6'
    } else if d == 7 {
        '7'
    } else if d == 8 {
        '8'
    } else {
        '9'
    }
}

/// The decimal representation of `n`, most significant digit first,
/// without sign, padding or truncation.
pub open spec fn spec_decimal(n: nat) -> Seq<char>
    decreases n,
{
    if n < 10 {
        seq![digit_char(n)]
    } else {
        spec_decimal(n / 10) + seq![digit_char(n % 10)]
    }
}

/// The one-character string for the decimal digit `d`.
fn digit_str(d: u64) -> (s: &'static str)
    requires
        d < 10,
    ensures
        s@ == seq![digit_char(d as nat)],
{
    let s = match d {
        0 => "0",
        1 => "1",
        2 => "2",
        3 => "3",
        4 => "4",
        5 => "5",
        6 => "6",
        7 => "7",
        8 => "8",
        _ => "9",
    };
    proof {
        reveal_strlit("0");
        reveal_strlit("1");
        reveal_strlit("2");
        reveal_strlit("3");
        reveal_strlit("4");
        reveal_strlit("5");
        reveal_strlit("6");
        reveal_strlit("7");
        reveal_strlit("8");
        reveal_strlit("9");
        assert(s@ =~= seq![digit_char(d as nat)]);
    }
    s
}

/// Render `n` in decimal.
pub fn u64_to_string(n: u64) -> (s: String)
    ensures
        s@ == spec_decimal(n as nat),
    decreases n,
{
    if n < 10 {
        digit_str(n).to_owned()
    } else {
        let mut s = u64_to_string(n / 10);
        s.append(digit_str(n % 10));
        s
    }
}

/// `s` right-aligned in a field of `width` characters: space-padded on the
/// left when shorter, unchanged (never truncated) when at least as wide.
pub open spec fn spec_right_aligned(s: Seq<char>, width: nat) -> Seq<char> {
    if s.len() >= width {
        s
    } else {
        Seq::new((width - s.len()) as nat, |k: int| ' ') + s
    }
}

/// Right-align `s` to at least `width` characters with leading spaces.
pub fn right_align(s: String, width: usize) -> (r: String)
    ensures
        r@ == spec_right_aligned(s@, width as nat),
{
    let n = s.as_str().unicode_len();
    if n >= width {
        s
    } else {
        let mut pad = String::new();
        let mut i: usize = 0;
        while i < width - n
            invariant
                n == s@.len(),
                n < width,
                i <= width - n,
                pad@ =~= Seq::new(i as nat, |k: int| ' '),
            decreases width - n - i,
        {
            pad.append(" ");
            proof {
                reveal_strlit(" ");
                assert(pad@ =~= Seq::new((i + 1) as nat, |k: int| ' '));
            }
            i = i + 1;
        }
        let r = pad.concat(s.as_str());
        proof {
            assert(r@ =~= spec_right_aligned(s@, width as nat));
        }
        r
    }
}

/// Right alignment never truncates: the result ends in `s` unchanged, and
/// its length is `width` for short content and `s.len()` for wide content.
pub proof fn lemma_right_aligned_keeps_content(s: Seq<char>, width: nat)
    ensures
        spec_right_aligned(s, width).len() == if s.len() >= width {
            s.len()
        } else {
            width
        },
        spec_right_aligned(s, width).skip(
            spec_right_aligned(s, width).len() - s.len(),
        ) == s,
{
    if s.len() < width {
        assert(spec_right_aligned(s, width).skip((width - s.len()) as int) =~= s);
    } else {
        assert(spec_right_aligned(s, width).skip(0) =~= s);
    }
}

/// Minimum width of a displayed raw-state field, in characters.
pub const FIELD_WIDTH: usize = 5;

/// A raw-state field value as displayed: decimal, right-aligned to a minimum
/// width of `FIELD_WIDTH` characters; wider values grow, never truncate.
pub open spec fn spec_field(v: nat) -> Seq<char> {
    spec_right_aligned(spec_decimal(v), FIELD_WIDTH as nat)
}

/// Format one raw-state field for display.
pub fn format_field(v: u64) -> (s: String)
    ensures
        s@ == spec_field(v as nat),
{
    right_align(u64_to_string(v), FIELD_WIDTH)
}

/// The named output channels of the diagnostic console. Each stands for one
/// addressable text line slot; the mapping to slot indices is fixed.
#[derive(Clone, Copy, PartialEq, Eq, Structural, Debug)]
pub enum ConsoleLine {
    RngCallCount,
    RngState0,
    RngState1,
    RngState2,
    BoardInit,
    RngCallRateFrame,
    RngCallRateAvg,
}

impl ConsoleLine {
    /// The console slot index this channel writes to. Slot 1 is left free as
    /// a spacer between the call count and the raw-state fields.
    pub open spec fn spec_index(self) -> int {
        match self {
            ConsoleLine::RngCallCount => 0,
            ConsoleLine::RngState0 => 2,
            ConsoleLine::RngState1 => 3,
            ConsoleLine::RngState2 => 4,
            ConsoleLine::BoardInit => 5,
            ConsoleLine::RngCallRateFrame => 6,
            ConsoleLine::RngCallRateAvg => 7,
        }
    }

    /// The console slot index as a value.
    pub fn index(self) -> (i: usize)
        ensures
            i == self.spec_index(),
    {
        match self {
            ConsoleLine::RngCallCount => 0,
            ConsoleLine::RngState0 => 2,
            ConsoleLine::RngState1 => 3,
            ConsoleLine::RngState2 => 4,
            ConsoleLine::BoardInit => 5,
            ConsoleLine::RngCallRateFrame => 6,
            ConsoleLine::RngCallRateAvg => 7,
        }
    }
}

/// One pending write to the console: the channel and the full replacement
/// text for its line.
pub struct DisplayUpdate {
    pub line: ConsoleLine,
    pub text: String,
}

/// The call-count line: `Count: ` followed by the count in decimal.
pub open spec fn spec_count_line(count: nat) -> Seq<char> {
    "Count: "@ + spec_decimal(count)
}

/// Format the call-count line.
pub fn count_line(count: u64) -> (s: String)
    ensures
        s@ == spec_count_line(count as nat),
{
    let mut s = "Count: ".to_owned();
    s.append(u64_to_string(count).as_str());
    s
}

/// The label introducing raw-state field `i`, for `i < 3`.
pub open spec fn spec_state_label(i: nat) -> Seq<char> {
    if i == 0 {
        "R0: "@
    } else if i == 1 {
        "R1: "@
    } else {
        "R2: "@
    }
}

/// A raw-state line: the field's label followed by its value, right-aligned
/// to the fixed minimum field width.
pub open spec fn spec_state_line(i: nat, v: nat) -> Seq<char> {
    spec_state_label(i) + spec_field(v)
}

/// Format the line for raw-state field `i` holding value `v`.
pub fn state_line(i: u64, v: u64) -> (s: String)
    requires
        i < 3,
    ensures
        s@ == spec_state_line(i as nat, v as nat),
{
    let mut s = if i == 0 {
        "R0: ".to_owned()
    } else if i == 1 {
        "R1: ".to_owned()
    } else {
        "R2: ".to_owned()
    };
    s.append(format_field(v).as_str());
    s
}

/// The board-init line: `Board Init Count: ` followed by the call count at
/// the moment the board was initialised.
pub open spec fn spec_board_init_line(count: nat) -> Seq<char> {
    "Board Init Count: "@ + spec_decimal(count)
}

/// Format the board-init line.
pub fn board_init_line(count: u64) -> (s: String)
    ensures
        s@ == spec_board_init_line(count as nat),
{
    let mut s = "Board Init Count: ".to_owned();
    s.append(u64_to_string(count).as_str());
    s
}

/// The per-frame rate line: `RNG Calls: ` followed by this frame's delta.
pub open spec fn spec_rate_line(delta: nat) -> Seq<char> {
    "RNG Calls: "@ + spec_decimal(delta)
}

/// Format the per-frame rate line.
pub fn rate_line(delta: u64) -> (s: String)
    ensures
        s@ == spec_rate_line(delta as nat),
{
    let mut s = "RNG Calls: ".to_owned();
    s.append(u64_to_string(delta).as_str());
    s
}

} // verus!

