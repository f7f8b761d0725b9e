//! Reading the daemon's version out of what `geph4-client --version` prints.

use vstd::prelude::*;
use vstd::std_specs::iter::IteratorSpec;
use vstd::string::group_string_axioms;
use crate::platform::{push_char, utf8_lossy, utf8_lossy_text};
use crate::text::opt_text;

verus! {

/// What running the daemon with its version flag gave.
#[derive(Clone, Debug, PartialEq, Eq)]
pub struct ProbeOutput {
    /// Whether the process exited successfully.
    pub success: bool,
    /// What it wrote to standard output.
    pub stdout: Vec<u8>,
}

/// Why the version is not known.
#[derive(Clone, Copy, Debug, PartialEq, Eq, Structural)]
pub enum ProbeError {
    /// The daemon could not be run.
    NotRun,
    /// The daemon ran and exited abnormally.
    AbnormalExit,
}

/// Whether a character has the Unicode property `White_Space`.
pub open spec fn is_whitespace(c: char) -> bool {
    let u = c as u32;
    ||| 0x09 <= u <= 0x0d
    ||| u == 0x20
    ||| u == 0x85
    ||| u == 0xa0
    ||| u == 0x1680
    ||| 0x2000 <= u <= 0x200a
    ||| u == 0x2028
    ||| u == 0x2029
    ||| u == 0x202f
    ||| u == 0x205f
    ||| u == 0x3000
}

/// `s` without the whitespace it begins with.
pub open spec fn trimmed_start(s: Seq<char>) -> Seq<char>
    decreases s.len(),
{
    if s.len() > 0 && is_whitespace(s[0]) {
        trimmed_start(s.drop_first())
    } else {
        s
    }
}

/// `s` without the whitespace it ends with.
pub open spec fn trimmed_end(s: Seq<char>) -> Seq<char>
    decreases s.len(),
{
    if s.len() > 0 && is_whitespace(s.last()) {
        trimmed_end(s.drop_last())
    } else {
        s
    }
}

/// `s` without the whitespace around it.
pub open spec fn trimmed(s: Seq<char>) -> Seq<char> {
    trimmed_end(trimmed_start(s))
}

/// `s` without the occurrences of `word`, found from left to right and not
/// overlapping. An empty `word` removes nothing.
pub open spec fn without_word(s: Seq<char>, word: Seq<char>) -> Seq<char>
    decreases s.len(),
{
    if word.len() == 0 || s.len() < word.len() {
        s
    } else if s.subrange(0, word.len() as int) == word {
        without_word(s.subrange(word.len() as int, s.len() as int), word)
    } else {
        seq![s[0]] + without_word(s.drop_first(), word)
    }
}

/// The version that a line of output states: the output as text, without
/// the product name and without the whitespace around what is left.
pub open spec fn version_text(stdout: Seq<u8>) -> Seq<char> {
    trimmed(without_word(utf8_lossy_text(stdout), "geph4-client"@))
}

/// The daemon's version, or the reason it is not known.
pub open spec fn probed_version(output: Option<ProbeOutput>) -> Result<Seq<char>, ProbeError> {
    match output {
        None => Err(ProbeError::NotRun),
        Some(o) => if o.success {
            Ok(version_text(o.stdout@))
        } else {
            Err(ProbeError::AbnormalExit)
        },
    }
}

/// Tells whether `c` is whitespace.
pub fn is_whitespace_char(c: char) -> (b: bool)
    ensures
        b == is_whitespace(c),
{
    let u: u32 = c as u32;
    (0x09 <= u && u <= 0x0d) || u == 0x20 || u == 0x85 || u == 0xa0 || u == 0x1680 || (0x2000 <= u
        && u <= 0x200a) || u == 0x2028 || u == 0x2029 || u == 0x202f || u == 0x205f || u == 0x3000
}

/// The characters of `s`, one by one.
pub fn chars_of(s: &str) -> (chars: Vec<char>)
    ensures
        chars@ == s@,
{
    broadcast use group_string_axioms;

    let mut chars: Vec<char> = Vec::new();
    let mut it = s.chars();
    loop
        invariant
            it.obeys_prophetic_iter_laws(),
            it.decrease() is Some,
            chars@ + it.remaining() == s@,
        decreases it.decrease()->0,
    {
        match it.next() {
            Some(c) => {
                chars.push(c);
                assert(chars@ + it.remaining() =~= s@);
            },
            None => {
                assert(chars@ =~= s@);
                return chars;
            },
        }
    }
}

/// The string made of `chars[from..to]`.
pub fn string_of(chars: &Vec<char>, from: usize, to: usize) -> (s: String)
    requires
        from <= to <= chars@.len(),
    ensures
        s@ == chars@.subrange(from as int, to as int),
{
    let mut s = String::new();
    let mut i: usize = from;
    while i < to
        invariant
            from <= i <= to <= chars@.len(),
            s@ == chars@.subrange(from as int, i as int),
        decreases to - i,
    {
        push_char(&mut s, chars[i]);
        assert(s@ =~= chars@.subrange(from as int, i + 1));
        i += 1;
    }
    s
}

/// Tells whether `word` stands in `s` at index `at`.
pub fn occurs_at(s: &Vec<char>, at: usize, word: &Vec<char>) -> (found: bool)
    requires
        at <= s@.len(),
    ensures
        found == (word@.len() <= s@.len() - at && s@.subrange(at as int, at + word@.len())
            == word@),
{
    if word.len() > s.len() - at {
        return false;
    }
    let mut k: usize = 0;
    while k < word.len()
        invariant
            at <= s@.len() <= usize::MAX,
            k <= word@.len() <= s@.len() - at,
            s@.subrange(at as int, at + k) == word@.subrange(0, k as int),
        decreases word@.len() - k,
    {
        if s[at + k] != word[k] {
            assert(s@.subrange(at as int, at + word@.len())[k as int] != word@[k as int]);
            return false;
        }
        assert(s@.subrange(at as int, at + k + 1) =~= s@.subrange(at as int, at + k).push(
            s@[at + k],
        ));
        assert(word@.subrange(0, k + 1) =~= word@.subrange(0, k as int).push(word@[k as int]));
        k += 1;
    }
    assert(word@.subrange(0, k as int) =~= word@);
    true
}

/// Removes the occurrences of `word` from `s`.
pub fn remove_word(s: &Vec<char>, word: &Vec<char>) -> (rest: Vec<char>)
    ensures
        rest@ == without_word(s@, word@),
{
    let mut rest: Vec<char> = Vec::new();
    let mut i: usize = 0;
    assert(s@.subrange(0, s@.len() as int) =~= s@);
    assert(rest@ + without_word(s@, word@) =~= without_word(s@, word@));
    while i < s.len()
        invariant
            i <= s@.len(),
            rest@ + without_word(s@.subrange(i as int, s@.len() as int), word@) == without_word(
                s@,
                word@,
            ),
        decreases s@.len() - i,
    {
        let ghost tail = s@.subrange(i as int, s@.len() as int);
        if word.len() > 0 && occurs_at(s, i, word) {
            assert(tail.subrange(0, word@.len() as int) =~= s@.subrange(
                i as int,
                i + word@.len(),
            ));
            assert(tail.subrange(word@.len() as int, tail.len() as int) =~= s@.subrange(
                i + word@.len(),
                s@.len() as int,
            ));
            i += word.len();
        } else {
            assert(tail.drop_first() =~= s@.subrange(i + 1, s@.len() as int));
            assert(without_word(tail, word@) =~= seq![s@[i as int]] + without_word(
                tail.drop_first(),
                word@,
            )) by {
                if word@.len() == 0 || tail.len() < word@.len() {
                    assert(without_word(tail, word@) == tail);
                    assert(without_word(tail.drop_first(), word@) == tail.drop_first());
                } else {
                    assert(tail.subrange(0, word@.len() as int) =~= s@.subrange(
                        i as int,
                        i + word@.len(),
                    ));
                }
            }
            let ghost before = rest@;
            rest.push(s[i]);
            assert(rest@ + without_word(tail.drop_first(), word@) =~= before + without_word(
                tail,
                word@,
            ));
            i += 1;
        }
    }
    assert(without_word(s@.subrange(i as int, s@.len() as int), word@) =~= Seq::<char>::empty());
    assert(rest@ =~= without_word(s@, word@));
    rest
}

/// The text of `s` between its leading and its trailing whitespace.
pub fn trim(s: &Vec<char>) -> (t: String)
    ensures
        t@ == trimmed(s@),
{
    let n = s.len();
    let mut from: usize = 0;
    assert(s@.subrange(0, n as int) =~= s@);
    while from < n && is_whitespace_char(s[from])
        invariant
            from <= n == s@.len(),
            trimmed_start(s@) == trimmed_start(s@.subrange(from as int, n as int)),
        decreases n - from,
    {
        assert(s@.subrange(from as int, n as int).drop_first() =~= s@.subrange(
            from + 1,
            n as int,
        ));
        from += 1;
    }
    assert(trimmed_start(s@) == s@.subrange(from as int, n as int));
    let mut to: usize = n;
    while to > from && is_whitespace_char(s[to - 1])
        invariant
            from <= to <= n == s@.len(),
            trimmed(s@) == trimmed_end(s@.subrange(from as int, to as int)),
        decreases to - from,
    {
        assert(s@.subrange(from as int, to as int).drop_last() =~= s@.subrange(
            from as int,
            to - 1,
        ));
        to -= 1;
    }
    assert(trimmed(s@) == s@.subrange(from as int, to as int));
    string_of(s, from, to)
}

/// Reads the version out of the daemon's standard output.
pub fn parse_version(stdout: &[u8]) -> (version: String)
    ensures
        version@ == version_text(stdout@),
{
    let text = utf8_lossy(stdout);
    let chars = chars_of(text.as_str());
    let name = chars_of("geph4-client");
    let bare = remove_word(&chars, &name);
    trim(&bare)
}

/// Returns the daemon version from the outcome of the version probe;
/// `None` stands for a daemon that could not be run.
pub fn daemon_version(output: Option<ProbeOutput>) -> (version: Result<String, ProbeError>)
    ensures
        match (version, probed_version(output)) {
            (Ok(v), Ok(expected)) => v@ == expected,
            (Err(e), Err(expected)) => e == expected,
            _ => false,
        },
{
    match output {
        None => Err(ProbeError::NotRun),
        Some(o) => {
            if o.success {
                Ok(parse_version(o.stdout.as_slice()))
            } else {
                Err(ProbeError::AbnormalExit)
            }
        },
    }
}

/// What a cache holding `cached` answers to the outcome of a probe: the
/// version it holds, else what the probe gave.
pub open spec fn cached_version(cached: Option<Seq<char>>, output: Option<ProbeOutput>) -> Result<
    Seq<char>,
    ProbeError,
> {
    match cached {
        Some(v) => Ok(v),
        None => probed_version(output),
    }
}

/// Holds the daemon's version once a probe has succeeded.
#[derive(Clone, Debug, PartialEq, Eq)]
pub struct VersionCache {
    version: Option<String>,
}

impl View for VersionCache {
    type V = Option<Seq<char>>;

    closed spec fn view(&self) -> Option<Seq<char>> {
        opt_text(self.version)
    }
}

impl VersionCache {
    /// A cache that holds no version yet.
    pub fn new() -> (cache: VersionCache)
        ensures
            cache@ is None,
    {
        VersionCache { version: None }
    }

    /// The version held, if a probe has succeeded.
    pub fn get(&self) -> (version: Option<String>)
        ensures
            opt_text(version) == self@,
    {
        match &self.version {
            Some(v) => Some(v.clone()),
            None => None,
        }
    }

    /// Answers with the version held, else with what the probe's `output`
    /// gives. A version read from a successful probe is held from then on;
    /// a failed probe leaves the cache empty.
    pub fn version(&mut self, output: Option<ProbeOutput>) -> (version: Result<String, ProbeError>)
        ensures
            match (version, cached_version(old(self)@, output)) {
                (Ok(v), Ok(expected)) => v@ == expected && final(self)@ == Some(expected),
                (Err(e), Err(expected)) => e == expected && final(self)@ is None,
                _ => false,
            },
    {
        match &self.version {
            Some(v) => {
                return Ok(v.clone());
            },
            None => {},
        }
        match daemon_version(output) {
            Ok(v) => {
                self.version = Some(v.clone());
                Ok(v)
            },
            Err(e) => Err(e),
        }
    }
}

/// A cache that has answered with a version answers with it ever after,
/// whatever later probes give.
pub proof fn lemma_version_is_stable(
    cached: Option<Seq<char>>,
    first: Option<ProbeOutput>,
    second: Option<ProbeOutput>,
)
    requires
        cached_version(cached, first) is Ok,
    ensures
        cached_version(Some(cached_version(cached, first)->Ok_0), second) == cached_version(
            cached,
            first,
        ),
{
}

} // verus!
