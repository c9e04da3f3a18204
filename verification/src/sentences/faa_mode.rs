//! FAA mode indicators. NMEA 4.1+ sentences carry up to six of them, one per
//! satellite system (GPS, GLONASS, Galileo, BDS, QZSS, NavIC); older ones a
//! single character.

use vstd::prelude::*;

use crate::bounded::{modes6, modes6_as_slice, modes6_from_slice};
use crate::strings::push_char;

verus! {

/// One FAA mode indicator.
#[derive(Debug, Clone, Copy, PartialEq, Eq, Structural)]
pub enum FaaMode {
    /// `A` - Autonomous
    Autonomous,
    /// `C` - Caution (a Quectel extension)
    Caution,
    /// `D` - Differential
    Differential,
    /// `E` - Estimated (dead reckoning)
    Estimated,
    /// `F` - RTK float
    FloatRtk,
    /// `M` - Manual input
    Manual,
    /// `N` - Data not valid
    DataNotValid,
    /// `P` - Precise (NMEA 4.00 and later)
    Precise,
    /// `R` - RTK integer
    FixedRtk,
    /// `S` - Simulated
    Simulator,
    /// `U` - Unsafe (a Quectel extension)
    Unsafe,
}

/// The character of a mode.
pub open spec fn spec_mode_char(m: FaaMode) -> char {
    match m {
        FaaMode::Autonomous => 'A',
        FaaMode::Caution => 'C',
        FaaMode::Differential => 'D',
        FaaMode::Estimated => 'E',
        FaaMode::FloatRtk => 'F',
        FaaMode::Manual => 'M',
        FaaMode::DataNotValid => 'N',
        FaaMode::Precise => 'P',
        FaaMode::FixedRtk => 'R',
        FaaMode::Simulator => 'S',
        FaaMode::Unsafe => 'U',
    }
}

/// The mode a character names, if any.
pub open spec fn spec_parse_faa_mode(c: char) -> Option<FaaMode> {
    match c {
        'A' => Some(FaaMode::Autonomous),
        'C' => Some(FaaMode::Caution),
        'D' => Some(FaaMode::Differential),
        'E' => Some(FaaMode::Estimated),
        'F' => Some(FaaMode::FloatRtk),
        'N' => Some(FaaMode::DataNotValid),
        'P' => Some(FaaMode::Precise),
        'R' => Some(FaaMode::FixedRtk),
        'M' => Some(FaaMode::Manual),
        'S' => Some(FaaMode::Simulator),
        'U' => Some(FaaMode::Unsafe),
        _ => None,
    }
}

impl FaaMode {
    /// The single character a mode is written as.
    pub fn to_nmea_char(self) -> (c: char)
        ensures
            c == spec_mode_char(self),
    {
        match self {
            FaaMode::Autonomous => 'A',
            FaaMode::Caution => 'C',
            FaaMode::Differential => 'D',
            FaaMode::Estimated => 'E',
            FaaMode::FloatRtk => 'F',
            FaaMode::Manual => 'M',
            FaaMode::DataNotValid => 'N',
            FaaMode::Precise => 'P',
            FaaMode::FixedRtk => 'R',
            FaaMode::Simulator => 'S',
            FaaMode::Unsafe => 'U',
        }
    }
}

/// Reads one mode character.
pub fn parse_faa_mode(value: char) -> (r: Option<FaaMode>)
    ensures
        r == spec_parse_faa_mode(value),
{
    match value {
        'A' => Some(FaaMode::Autonomous),
        'C' => Some(FaaMode::Caution),
        'D' => Some(FaaMode::Differential),
        'E' => Some(FaaMode::Estimated),
        'F' => Some(FaaMode::FloatRtk),
        'N' => Some(FaaMode::DataNotValid),
        'P' => Some(FaaMode::Precise),
        'R' => Some(FaaMode::FixedRtk),
        'M' => Some(FaaMode::Manual),
        'S' => Some(FaaMode::Simulator),
        'U' => Some(FaaMode::Unsafe),
        _ => None,
    }
}

/// A mode character and the mode it names are one to one.
pub proof fn lemma_faa_mode_char_round_trip(m: FaaMode, c: char)
    ensures
        spec_parse_faa_mode(spec_mode_char(m)) == Some(m),
        spec_parse_faa_mode(c) matches Some(n) ==> spec_mode_char(n) == c,
{
}

/// Each FAA mode letter names its NMEA mode: `A` autonomous, `C` caution,
/// `D` differential, `E` estimated, `F` RTK float, `M` manual, `N` data not
/// valid, `P` precise, `R` RTK integer, `S` simulated, `U` unsafe; no other
/// character names a mode.
pub proof fn lemma_faa_mode_letters(c: char)
    ensures
        spec_parse_faa_mode(c) == Some(FaaMode::Autonomous) <==> c == 'A',
        spec_parse_faa_mode(c) == Some(FaaMode::Caution) <==> c == 'C',
        spec_parse_faa_mode(c) == Some(FaaMode::Differential) <==> c == 'D',
        spec_parse_faa_mode(c) == Some(FaaMode::Estimated) <==> c == 'E',
        spec_parse_faa_mode(c) == Some(FaaMode::FloatRtk) <==> c == 'F',
        spec_parse_faa_mode(c) == Some(FaaMode::Manual) <==> c == 'M',
        spec_parse_faa_mode(c) == Some(FaaMode::DataNotValid) <==> c == 'N',
        spec_parse_faa_mode(c) == Some(FaaMode::Precise) <==> c == 'P',
        spec_parse_faa_mode(c) == Some(FaaMode::FixedRtk) <==> c == 'R',
        spec_parse_faa_mode(c) == Some(FaaMode::Simulator) <==> c == 'S',
        spec_parse_faa_mode(c) == Some(FaaMode::Unsafe) <==> c == 'U',
        spec_parse_faa_mode(c) is None <==> !(c == 'A' || c == 'C' || c == 'D' || c == 'E' || c == 'F' || c == 'M' || c == 'N' || c == 'P' || c == 'R' || c == 'S' || c == 'U'),
{
}

/// Each FAA mode is written as its NMEA letter.
pub proof fn lemma_faa_mode_letters_written(m: FaaMode)
    ensures
        spec_mode_char(m) == 'A' <==> m == FaaMode::Autonomous,
        spec_mode_char(m) == 'C' <==> m == FaaMode::Caution,
        spec_mode_char(m) == 'D' <==> m == FaaMode::Differential,
        spec_mode_char(m) == 'E' <==> m == FaaMode::Estimated,
        spec_mode_char(m) == 'F' <==> m == FaaMode::FloatRtk,
        spec_mode_char(m) == 'M' <==> m == FaaMode::Manual,
        spec_mode_char(m) == 'N' <==> m == FaaMode::DataNotValid,
        spec_mode_char(m) == 'P' <==> m == FaaMode::Precise,
        spec_mode_char(m) == 'R' <==> m == FaaMode::FixedRtk,
        spec_mode_char(m) == 'S' <==> m == FaaMode::Simulator,
        spec_mode_char(m) == 'U' <==> m == FaaMode::Unsafe,
{
    lemma_faa_mode_char_round_trip(m, spec_mode_char(m));
    lemma_faa_mode_letters(spec_mode_char(m));
}

/// One to six mode indicators; the first is the primary one.
#[derive(Debug, PartialEq, Eq)]
pub struct FaaModes {
    modes: heapless::Vec<FaaMode, 6>,
}

impl FaaModes {
    /// The modes held, in order.
    pub closed spec fn spec_modes(self) -> Seq<FaaMode> {
        modes6(self.modes)
    }

    /// Every `FaaModes` holds at least one mode.
    #[verifier::type_invariant]
    closed spec fn inv(self) -> bool {
        1 <= self.spec_modes().len() <= 6
    }

    /// Modes from a list of one to six of them.
    pub fn from_modes(modes: &[FaaMode]) -> (r: Option<FaaModes>)
        ensures
            r is Some <==> 1 <= modes@.len() <= 6,
            r matches Some(m) ==> m.spec_modes() == modes@,
    {
        if modes.len() == 0 {
            return None;
        }
        match modes6_from_slice(modes) {
            Some(v) => Some(FaaModes { modes: v }),
            None => None,
        }
    }

    /// The first (primary) mode.
    pub fn primary(&self) -> (m: FaaMode)
        ensures
            m == self.spec_modes()[0],
    {
        proof {
            use_type_invariant(self);
        }
        let s = modes6_as_slice(&self.modes);
        s[0]
    }

    /// All mode indicators.
    pub fn as_slice(&self) -> (s: &[FaaMode])
        ensures
            s@ == self.spec_modes(),
    {
        modes6_as_slice(&self.modes)
    }

    /// The mode of a system by index (0 = GPS, 1 = GLONASS, ...), if present.
    pub fn get(&self, index: usize) -> (r: Option<&FaaMode>)
        ensures
            index < self.spec_modes().len() ==> r == Some(&self.spec_modes()[index as int]),
            index >= self.spec_modes().len() ==> r is None,
    {
        let s = modes6_as_slice(&self.modes);
        if index < s.len() {
            Some(&s[index])
        } else {
            None
        }
    }

    /// How many mode indicators there are.
    pub fn len(&self) -> (n: usize)
        ensures
            n == self.spec_modes().len(),
    {
        modes6_as_slice(&self.modes).len()
    }

    /// Whether there are no mode indicators; never true, since at least one
    /// is always held.
    pub fn is_empty(&self) -> (b: bool)
        ensures
            b == (self.spec_modes().len() == 0),
            !b,
    {
        proof {
            use_type_invariant(self);
        }
        modes6_as_slice(&self.modes).len() == 0
    }

    /// Appends the mode characters, e.g. `ANN`.
    pub fn write_nmea(&self, f: &mut String)
        ensures
            final(f)@ == old(f)@ + modes_text(self.spec_modes()),
    {
        let s = modes6_as_slice(&self.modes);
        let mut i: usize = 0;
        while i < s.len()
            invariant
                i <= s@.len(),
                s@ == self.spec_modes(),
                f@ == old(f)@ + modes_text(s@.take(i as int)),
            decreases s@.len() - i,
        {
            push_char(f, s[i].to_nmea_char());
            assert(s@.take(i + 1).drop_last() =~= s@.take(i as int));
            i += 1;
        }
        assert(s@.take(s@.len() as int) =~= s@);
    }
}

impl Clone for FaaModes {
    fn clone(&self) -> (r: Self)
        ensures
            r.spec_modes() == self.spec_modes(),
    {
        proof {
            use_type_invariant(self);
        }
        let v = modes6_from_slice(modes6_as_slice(&self.modes));
        FaaModes { modes: v.unwrap() }
    }
}

/// The characters of a list of modes.
pub open spec fn modes_text(m: Seq<FaaMode>) -> Seq<char>
    decreases m.len(),
{
    if m.len() == 0 {
        Seq::empty()
    } else {
        modes_text(m.drop_last()).push(spec_mode_char(m.last()))
    }
}

/// The modes written at the start of a field: one to six characters, each a
/// mode; characters after the sixth are ignored.
pub open spec fn faa_modes_field(f: Seq<char>) -> Option<Seq<FaaMode>> {
    let k = if f.len() < 6 { f.len() as int } else { 6 };
    if f.len() >= 1 && forall|j: int| 0 <= j < k ==> (#[trigger] spec_parse_faa_mode(f[j])) is Some {
        Some(Seq::new(k as nat, |j: int| spec_parse_faa_mode(f[j]).unwrap()))
    } else {
        None
    }
}

/// Reads the modes at the start of the window `s[a..b]`; see [`faa_modes_field`].
pub fn parse_faa_modes(s: &Vec<char>, a: usize, b: usize) -> (r: Option<FaaModes>)
    requires
        a <= b <= s.len(),
    ensures
        match r {
            Some(m) => faa_modes_field(s@.subrange(a as int, b as int)) == Some(m.spec_modes()),
            None => faa_modes_field(s@.subrange(a as int, b as int)) is None,
        },
{
    let ghost f = s@.subrange(a as int, b as int);
    if a == b {
        return None;
    }
    let k = if b - a < 6 { b - a } else { 6 };
    let mut v: Vec<FaaMode> = Vec::new();
    let mut j: usize = 0;
    while j < k
        invariant
            a <= b <= s.len(),
            f == s@.subrange(a as int, b as int),
            k <= b - a,
            k <= 6,
            j <= k,
            v@.len() == j,
            forall|q: int| 0 <= q < j ==> spec_parse_faa_mode(f[q]) == Some(#[trigger] v@[q]),
        decreases k - j,
    {
        match parse_faa_mode(s[a + j]) {
            Some(m) => v.push(m),
            None => {
                assert(spec_parse_faa_mode(f[j as int]) is None);
                return None;
            },
        }
        j += 1;
    }
    assert forall|q: int| 0 <= q < k implies (#[trigger] spec_parse_faa_mode(f[q])) is Some by {
        assert(spec_parse_faa_mode(f[q]) == Some(v@[q]));
    }
    let r = FaaModes::from_modes(v.as_slice());
    assert(v@ =~= Seq::new(k as nat, |q: int| spec_parse_faa_mode(f[q]).unwrap()));
    r
}

/// The characters of a list of modes are the mode characters one by one.
proof fn lemma_modes_text_index(m: Seq<FaaMode>)
    ensures
        modes_text(m).len() == m.len(),
        forall|j: int| 0 <= j < m.len() ==> modes_text(m)[j] == spec_mode_char(#[trigger] m[j]),
    decreases m.len(),
{
    if m.len() > 0 {
        lemma_modes_text_index(m.drop_last());
        assert forall|j: int| 0 <= j < m.len() implies modes_text(m)[j] == spec_mode_char(#[trigger] m[j]) by {
            if j < m.len() - 1 {
                assert(m.drop_last()[j] == m[j]);
            }
        }
    }
}

/// One to six modes written as their characters read back as themselves;
/// the text holds no comma or `*` and is ASCII.
pub proof fn lemma_modes_reads_back(m: Seq<FaaMode>)
    requires
        1 <= m.len() <= 6,
    ensures
        faa_modes_field(modes_text(m)) == Some(m),
        !modes_text(m).contains(','),
        !modes_text(m).contains('*'),
        vstd::utf8::is_ascii_chars(modes_text(m)),
{
    let t = modes_text(m);
    lemma_modes_text_index(m);
    assert forall|j: int| 0 <= j < t.len() implies (#[trigger] spec_parse_faa_mode(t[j])) is Some && spec_parse_faa_mode(t[j]).unwrap() == m[j] by {
        lemma_faa_mode_char_round_trip(m[j], t[j]);
    }
    assert(Seq::new(t.len(), |j: int| spec_parse_faa_mode(t[j]).unwrap()) =~= m);
    assert(!t.contains(',')) by {
        if t.contains(',') {
            let i = choose|i: int| 0 <= i < t.len() && t[i] == ',';
            assert(t[i] == spec_mode_char(m[i]));
        }
    }
    assert(!t.contains('*')) by {
        if t.contains('*') {
            let i = choose|i: int| 0 <= i < t.len() && t[i] == '*';
            assert(t[i] == spec_mode_char(m[i]));
        }
    }
    assert forall|i: int| 0 <= i < t.len() implies '\0' <= #[trigger] t[i] <= '\u{7f}' by {
        assert(t[i] == spec_mode_char(m[i]));
    }
}

} // verus!
