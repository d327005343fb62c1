//! Sprite rectangles, the table that finds them by frame name, and the naming
//! convention that maps a frame index to its name.

use vstd::hash_map::StringHashMap;
use vstd::prelude::*;
use vstd::string::StringExecFns;

verus! {

/// A rectangle inside the source image, in pixels.
#[derive(Clone, Copy, Debug, PartialEq, Eq, Structural)]
pub struct SpriteFrame {
    pub x: u16,
    pub y: u16,
    pub w: u16,
    pub h: u16,
}

/// The decimal digit for `d`, which is below ten.
pub open spec fn digit_char(d: nat) -> char {
    if d == 0 {
        '0'
    } else if d == 1 {
        '1'
    } else if d == 2 {
        '2'
    } else if d == 3 {
        '3'
    } else if d == 4 {
        '4'
    } else if d == 5 {
        '5'
    } else if d == 6 {
        '6'
    } else if d == 7 {
        '7'
    } else if d == 8 {
        '8'
    } else {
        '9'
    }
}

/// `n` written in base ten, without leading zeros.
pub open spec fn decimal(n: nat) -> Seq<char>
    decreases n,
{
    if n < 10 {
        seq![digit_char(n)]
    } else {
        decimal(n / 10).push(digit_char(n % 10))
    }
}

/// The digit that `c` stands for; zero for any other character.
pub open spec fn digit_value(c: char) -> nat {
    if c == '1' {
        1
    } else if c == '2' {
        2
    } else if c == '3' {
        3
    } else if c == '4' {
        4
    } else if c == '5' {
        5
    } else if c == '6' {
        6
    } else if c == '7' {
        7
    } else if c == '8' {
        8
    } else if c == '9' {
        9
    } else {
        0
    }
}

/// The number that `digits` spell in base ten.
pub open spec fn decimal_value(digits: Seq<char>) -> nat
    decreases digits.len(),
{
    if digits.len() == 0 {
        0
    } else {
        decimal_value(digits.drop_last()) * 10 + digit_value(digits.last())
    }
}

/// The name under which the frame at `index` is filed: frames are counted
/// from one in their names, so index 0 is `Run (1).png`.
pub open spec fn frame_key(index: nat) -> Seq<char> {
    "Run ("@ + decimal(index + 1) + ").png"@
}

fn digit_str(d: u128) -> (s: &'static str)
    requires
        d < 10,
    ensures
        s@ == seq![digit_char(d as nat)],
{
    proof {
        reveal_strlit("0");
        reveal_strlit("1");
        reveal_strlit("2");
        reveal_strlit("3");
        reveal_strlit("4");
        reveal_strlit("5");
        reveal_strlit("6");
        reveal_strlit("7");
        reveal_strlit("8");
        reveal_strlit("9");
    }
    let s = if d == 0 {
        "0"
    } else if d == 1 {
        "1"
    } else if d == 2 {
        "2"
    } else if d == 3 {
        "3"
    } else if d == 4 {
        "4"
    } else if d == 5 {
        "5"
    } else if d == 6 {
        "6"
    } else if d == 7 {
        "7"
    } else if d == 8 {
        "8"
    } else {
        "9"
    };
    assert(s@ =~= seq![digit_char(d as nat)]);
    s
}

fn push_decimal(out: &mut String, n: u128)
    ensures
        final(out)@ == old(out)@ + decimal(n as nat),
    decreases n,
{
    if n >= 10 {
        push_decimal(out, n / 10);
    }
    out.append(digit_str(n % 10));
    assert(out@ =~= old(out)@ + decimal(n as nat));
}

/// The name of the frame at `index`.
pub fn frame_name(index: usize) -> (name: String)
    ensures
        name@ == frame_key(index as nat),
{
    let mut name = String::from_str("Run (");
    push_decimal(&mut name, index as u128 + 1);
    name.append(").png");
    assert(name@ =~= frame_key(index as nat));
    name
}

/// Reading the digits of a number gives the number back.
pub proof fn lemma_decimal_round_trip(n: nat)
    ensures
        decimal_value(decimal(n)) == n,
    decreases n,
{
    if n < 10 {
        assert(decimal(n).drop_last() =~= Seq::<char>::empty());
        assert(decimal_value(Seq::<char>::empty()) == 0);
    } else {
        lemma_decimal_round_trip(n / 10);
        assert(decimal(n).drop_last() =~= decimal(n / 10));
    }
}

/// Frames at different indices are filed under different names.
pub proof fn lemma_frame_keys_differ(i: nat, j: nat)
    requires
        i != j,
    ensures
        frame_key(i) != frame_key(j),
{
    let head = "Run ("@;
    let tail = ").png"@;
    let a = decimal(i + 1);
    let b = decimal(j + 1);
    if frame_key(i) == frame_key(j) {
        assert(frame_key(i).len() == head.len() + a.len() + tail.len());
        assert(frame_key(j).len() == head.len() + b.len() + tail.len());
        assert(a =~= frame_key(i).subrange(head.len() as int, (head.len() + a.len()) as int));
        assert(b =~= frame_key(j).subrange(head.len() as int, (head.len() + b.len()) as int));
        lemma_decimal_round_trip(i + 1);
        lemma_decimal_round_trip(j + 1);
    }
}

/// Sprite rectangles by frame name.
pub struct FrameTable {
    frames: StringHashMap<SpriteFrame>,
}

impl View for FrameTable {
    type V = Map<Seq<char>, SpriteFrame>;

    closed spec fn view(&self) -> Map<Seq<char>, SpriteFrame> {
        self.frames@
    }
}

impl FrameTable {
    /// A table without entries.
    pub fn new() -> (table: Self)
        ensures
            table@ == Map::<Seq<char>, SpriteFrame>::empty(),
    {
        FrameTable { frames: StringHashMap::new() }
    }

    /// Files `frame` under `name`; an entry already filed under that name is
    /// replaced.
    pub fn insert(&mut self, name: String, frame: SpriteFrame)
        ensures
            final(self)@ == old(self)@.insert(name@, frame),
    {
        self.frames.insert(name, frame);
    }

    /// The rectangle filed under exactly `name`.
    pub fn lookup(&self, name: &str) -> (found: Option<SpriteFrame>)
        ensures
            found == if self@.contains_key(name@) {
                Some(self@[name@])
            } else {
                None
            },
    {
        match self.frames.get(name) {
            Some(frame) => Some(*frame),
            None => None,
        }
    }

    /// The number of entries.
    pub fn len(&self) -> (n: usize)
        ensures
            n == self@.len(),
    {
        self.frames.len()
    }
}

} // verus!
