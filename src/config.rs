//! Start-up configuration: from the options that the command line gave to
//! what the program does, and the watch target it runs with.
use vstd::prelude::*;

verus! {

/// The polling interval when none is given, in milliseconds.
pub const DEFAULT_DELAY_MS: u64 = 2500;

/// What to watch and how: the process name, the polling interval in
/// milliseconds and whether the icons are inverted. Fixed at start-up.
#[derive(Debug)]
pub struct WatchTarget {
    name: String,
    delay_ms: u64,
    invert: bool,
}

/// What the program does once its options are read.
#[derive(Debug)]
pub enum Launch {
    /// Print the version and exit.
    ShowVersion,
    /// Print the usage text and exit.
    ShowUsage,
    /// The delay is not a number of milliseconds: print the usage text and
    /// exit.
    InvalidDelay,
    /// Watch this target.
    Watch(WatchTarget),
}

/// A decimal digit.
pub open spec fn is_digit(c: char) -> bool {
    '0' <= c && c <= '9'
}

/// The value of a decimal digit.
pub open spec fn digit_value(c: char) -> nat {
    (c as int - '0' as int) as nat
}

/// The number written by a sequence of decimal digits.
pub open spec fn decimal_value(s: Seq<char>) -> nat
    decreases s.len(),
{
    if s.len() == 0 {
        0
    } else {
        decimal_value(s.drop_last()) * 10 + digit_value(s.last())
    }
}

/// Every character is a decimal digit.
pub open spec fn all_digits(s: Seq<char>) -> bool {
    forall|i: int| 0 <= i < s.len() ==> is_digit(#[trigger] s[i])
}

/// The digits of a delay: the text without one leading `+`, if it has one.
pub open spec fn digits_part(s: Seq<char>) -> Seq<char> {
    if s.len() > 0 && s[0] == '+' {
        s.drop_first()
    } else {
        s
    }
}

/// The delay a text gives: one or more decimal digits, after an optional
/// `+`, whose value fits in a `u64`.
pub open spec fn delay_value(s: Seq<char>) -> Option<u64> {
    let d = digits_part(s);
    if d.len() > 0 && all_digits(d) && decimal_value(d) <= u64::MAX {
        Some(decimal_value(d) as u64)
    } else {
        None
    }
}

/// The words joined with single spaces.
pub open spec fn joined(ws: Seq<Seq<char>>) -> Seq<char>
    decreases ws.len(),
{
    if ws.len() == 0 {
        Seq::empty()
    } else if ws.len() == 1 {
        ws[0]
    } else {
        joined(ws.drop_last()) + seq![' '] + ws.last()
    }
}

/// The texts of the strings.
pub open spec fn views(ws: Seq<String>) -> Seq<Seq<char>> {
    ws.map_values(|w: String| w@)
}

/// Appending digits never makes the value smaller.
proof fn lemma_value_grows(s: Seq<char>, k: int)
    requires
        0 <= k <= s.len(),
    ensures
        decimal_value(s.subrange(0, k)) <= decimal_value(s),
    decreases s.len() - k,
{
    if k < s.len() {
        let t = s.subrange(0, k + 1);
        assert(t.drop_last() =~= s.subrange(0, k));
        lemma_value_grows(s, k + 1);
    } else {
        assert(s.subrange(0, k) =~= s);
    }
}

/// Reads a delay in milliseconds: decimal digits, after an optional `+`,
/// whose value fits in a `u64`; anything else gives `None`.
pub fn parse_delay(text: &str) -> (r: Option<u64>)
    ensures
        r == delay_value(text@),
{
    let n = text.unicode_len();
    let start: usize = if n > 0 && text.get_char(0) == '+' {
        1
    } else {
        0
    };
    let ghost d = digits_part(text@);
    assert(d =~= text@.subrange(start as int, n as int));
    if start >= n {
        return None;
    }
    let mut v: u64 = 0;
    let mut i: usize = start;
    while i < n
        invariant
            start <= i <= n,
            n == text@.len(),
            d == text@.subrange(start as int, n as int),
            d == digits_part(text@),
            all_digits(d.subrange(0, i - start)),
            v as nat == decimal_value(d.subrange(0, i - start)),
        decreases n - i,
    {
        let c = text.get_char(i);
        let ghost k: int = i - start;
        if !('0' <= c && c <= '9') {
            assert(d[k] == c);
            assert(!all_digits(d));
            return None;
        }
        let dv: u64 = (c as u32 - '0' as u32) as u64;
        let ghost p = d.subrange(0, k + 1);
        assert(p.drop_last() =~= d.subrange(0, k));
        assert(p.last() == c);
        assert(digit_value(c) == dv as nat);
        assert(decimal_value(p) == v as nat * 10 + dv as nat);
        if v > 1844674407370955161 || (v == 1844674407370955161 && dv > 5) {
            proof {
                assert(v as nat * 10 + dv as nat > u64::MAX) by (nonlinear_arith)
                    requires
                        v > 1844674407370955161 || (v == 1844674407370955161 && dv > 5),
                ;
                lemma_value_grows(d, k + 1);
            }
            return None;
        }
        v = v * 10 + dv;
        i = i + 1;
        assert(all_digits(d.subrange(0, i - start)));
    }
    assert(d.subrange(0, i - start) =~= d);
    Some(v)
}

/// The words of the process name joined with single spaces.
pub fn join_words(words: &Vec<String>) -> (r: String)
    ensures
        r@ == joined(views(words@)),
{
    let mut r = String::new();
    let mut i: usize = 0;
    while i < words.len()
        invariant
            i <= words@.len(),
            r@ == joined(views(words@).subrange(0, i as int)),
        decreases words@.len() - i,
    {
        let ghost before = views(words@).subrange(0, i as int);
        let ghost after = views(words@).subrange(0, i + 1);
        assert(after.drop_last() =~= before);
        if i > 0 {
            proof {
                reveal_strlit(" ");
            }
            r.append(" ");
        } else {
            assert(before.len() == 0);
        }
        r.append(words[i].as_str());
        i = i + 1;
        assert(r@ =~= joined(after));
    }
    assert(views(words@).subrange(0, i as int) =~= views(words@));
    r
}

/// The usage line for a program of the given name.
pub fn usage_brief(program: &str) -> (r: String)
    ensures
        r@ == "Usage: "@ + program@ + " PROCESS_NAME [options]"@,
{
    let r = String::from_str("Usage: ");
    let r = r.concat(program);
    r.concat(" PROCESS_NAME [options]")
}

/// Decides what the program does from its options: the version flag wins,
/// then the help flag; with no process name the usage text is shown; a
/// delay that is not a number of milliseconds is refused; otherwise the
/// words of the name, joined with spaces, are watched at the given delay,
/// or every 2500 ms when none is given.
pub fn resolve_launch(
    free: &Vec<String>,
    help: bool,
    version: bool,
    invert: bool,
    delay: Option<&str>,
) -> (r: Launch)
    ensures
        version ==> r is ShowVersion,
        !version && help ==> r is ShowUsage,
        !version && !help && free@.len() == 0 ==> r is ShowUsage,
        !version && !help && free@.len() > 0 ==> match delay {
            None => r is Watch && r->Watch_0.delay_spec() == DEFAULT_DELAY_MS,
            Some(d) => match delay_value(d@) {
                None => r is InvalidDelay,
                Some(v) => r is Watch && r->Watch_0.delay_spec() == v,
            },
        },
        r is Watch ==> {
            &&& r->Watch_0.name_spec() == joined(views(free@))
            &&& r->Watch_0.invert_spec() == invert
        },
{
    if version {
        return Launch::ShowVersion;
    }
    if help || free.len() == 0 {
        return Launch::ShowUsage;
    }
    let delay_ms = match delay {
        None => DEFAULT_DELAY_MS,
        Some(d) => match parse_delay(d) {
            None => {
                return Launch::InvalidDelay;
            },
            Some(v) => v,
        },
    };
    Launch::Watch(WatchTarget::new(join_words(free), delay_ms, invert))
}

impl WatchTarget {
    /// The process name.
    pub closed spec fn name_spec(&self) -> Seq<char> {
        self.name@
    }

    /// The polling interval in milliseconds.
    pub closed spec fn delay_spec(&self) -> u64 {
        self.delay_ms
    }

    /// Whether the icons are inverted.
    pub closed spec fn invert_spec(&self) -> bool {
        self.invert
    }

    /// A target with the given name, interval and inversion flag.
    pub fn new(name: String, delay_ms: u64, invert: bool) -> (r: WatchTarget)
        ensures
            r.name_spec() == name@,
            r.delay_spec() == delay_ms,
            r.invert_spec() == invert,
    {
        WatchTarget { name, delay_ms, invert }
    }

    /// The name of the process to watch.
    pub fn name(&self) -> (r: &str)
        ensures
            r@ == self.name_spec(),
    {
        self.name.as_str()
    }

    /// The polling interval in milliseconds.
    pub fn delay_ms(&self) -> (r: u64)
        ensures
            r == self.delay_spec(),
    {
        self.delay_ms
    }

    /// Whether the icons are inverted.
    pub fn invert(&self) -> (r: bool)
        ensures
            r == self.invert_spec(),
    {
        self.invert
    }
}

} // verus!
