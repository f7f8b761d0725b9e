//! The RPC key that authorises control requests to the daemon: how a fresh
//! one is written down, and the store that hands out one key per process.

use vstd::prelude::*;
use crate::platform::{
    config_dir, extends_with, is_file_name, path_push, path_text, push_char, random_u128,
    starts_plainly,
};
use crate::text::opt_text;

verus! {

/// The character of a decimal digit.
pub open spec fn digit_char(d: nat) -> char {
    if d == 0 {
        '0'
    } else if d == 1 {
        '1'
    } else if d == 2 {
        '2'
    } else if d == 3 {
        '3'
    } else if d == 4 {
        '4'
    } else if d == 5 {
        '5'
    } else if d == 6 {
        '6'
    } else if d == 7 {
        '7'
    } else if d == 8 {
        '8'
    } else {
        '9'
    }
}

/// The decimal numeral of `n`, without leading zeros.
pub open spec fn decimal(n: nat) -> Seq<char>
    decreases n,
{
    if n < 10 {
        seq![digit_char(n)]
    } else {
        decimal(n / 10).push(digit_char(n % 10))
    }
}

/// The key generated from the random number `token`.
pub open spec fn generated_key(token: u128) -> Seq<char> {
    "geph-rpc-key-"@ + decimal(token as nat)
}

/// The number a decimal digit stands for.
pub open spec fn digit_value(c: char) -> nat {
    if c == '0' {
        0
    } else if c == '1' {
        1
    } else if c == '2' {
        2
    } else if c == '3' {
        3
    } else if c == '4' {
        4
    } else if c == '5' {
        5
    } else if c == '6' {
        6
    } else if c == '7' {
        7
    } else if c == '8' {
        8
    } else {
        9
    }
}

/// The number a decimal numeral stands for.
pub open spec fn numeral_value(s: Seq<char>) -> nat
    decreases s.len(),
{
    if s.len() == 0 {
        0
    } else {
        numeral_value(s.drop_last()) * 10 + digit_value(s.last())
    }
}

/// The decimal numeral of a number stands for that number.
pub proof fn lemma_decimal_value(n: nat)
    ensures
        numeral_value(decimal(n)) == n,
    decreases n,
{
    if n < 10 {
        let s = decimal(n);
        assert(s.drop_last() =~= Seq::<char>::empty());
        assert(numeral_value(s.drop_last()) == 0);
        assert(s.last() == digit_char(n));
    } else {
        lemma_decimal_value(n / 10);
        let s = decimal(n);
        assert(s.drop_last() =~= decimal(n / 10));
        assert(s.last() == digit_char(n % 10));
        assert(digit_value(digit_char(n % 10)) == n % 10);
    }
}

/// Different numbers have different decimal numerals.
pub proof fn lemma_decimal_is_injective(a: nat, b: nat)
    requires
        decimal(a) == decimal(b),
    ensures
        a == b,
{
    lemma_decimal_value(a);
    lemma_decimal_value(b);
}

/// Different random numbers give different keys: a key determines the
/// number it was generated from.
pub proof fn lemma_generated_key_is_injective(a: u128, b: u128)
    requires
        generated_key(a) == generated_key(b),
    ensures
        a == b,
{
    let prefix = "geph-rpc-key-"@;
    let ka = generated_key(a);
    let kb = generated_key(b);
    assert(ka.subrange(prefix.len() as int, ka.len() as int) =~= decimal(a as nat));
    assert(kb.subrange(prefix.len() as int, kb.len() as int) =~= decimal(b as nat));
    lemma_decimal_is_injective(a as nat, b as nat);
}

fn digit(d: u8) -> (c: char)
    requires
        d < 10,
    ensures
        c == digit_char(d as nat),
{
    match d {
        0 => '0',
        1 => '1',
        2 => '2',
        3 => '3',
        4 => '4',
        5 => '5',
        6 => '6',
        7 => '7',
        8 => '8',
        _ => '9',
    }
}

/// Appends the decimal numeral of `n` to `s`.
pub fn push_decimal(s: &mut String, n: u128)
    ensures
        final(s)@ == old(s)@ + decimal(n as nat),
    decreases n,
{
    if n >= 10 {
        push_decimal(s, n / 10);
    }
    push_char(s, digit((n % 10) as u8));
    assert(final(s)@ =~= old(s)@ + decimal(n as nat));
}

/// Writes down the key that stands for the random number `token`.
pub fn key_from_token(token: u128) -> (key: String)
    ensures
        key@ == generated_key(token),
{
    let mut key = "geph-rpc-key-".to_owned();
    push_decimal(&mut key, token);
    key
}

/// What `ensure` hands back: the key, and whether it is new and has to be
/// written to the key file.
#[derive(Clone, Debug, PartialEq, Eq)]
pub struct EnsuredKey {
    pub key: String,
    pub persist: bool,
}

/// The key that a store holding `cached` settles on, given what the key
/// file held (`loaded`) and a random number to fall back on, and whether
/// that key has to be written to the key file.
pub open spec fn ensured_key(
    cached: Option<Seq<char>>,
    loaded: Option<Seq<char>>,
    token: u128,
) -> (Seq<char>, bool) {
    match cached {
        Some(k) => (k, false),
        None => match loaded {
            Some(k) => (k, false),
            None => (generated_key(token), true),
        },
    }
}

/// Holds the process's RPC key once it has been settled.
#[derive(Clone, Debug, PartialEq, Eq)]
pub struct KeyStore {
    key: Option<String>,
}

impl View for KeyStore {
    type V = Option<Seq<char>>;

    closed spec fn view(&self) -> Option<Seq<char>> {
        opt_text(self.key)
    }
}

impl KeyStore {
    /// A store that has not settled on a key yet.
    pub fn new() -> (store: KeyStore)
        ensures
            store@ is None,
    {
        KeyStore { key: None }
    }

    /// The key the store has settled on, if it has.
    pub fn get(&self) -> (key: Option<String>)
        ensures
            opt_text(key) == self@,
    {
        match &self.key {
            Some(k) => Some(k.clone()),
            None => None,
        }
    }

    /// Settles the key with `token` as the random number to generate from:
    /// the key already held, else the one `loaded` from the key file, else
    /// the one generated from `token`. The store holds the result from then
    /// on.
    pub fn ensure_with(&mut self, loaded: Option<String>, token: u128) -> (out: EnsuredKey)
        ensures
            (out.key@, out.persist) == ensured_key(old(self)@, opt_text(loaded), token),
            final(self)@ == Some(out.key@),
    {
        match &self.key {
            Some(k) => {
                return EnsuredKey { key: k.clone(), persist: false };
            },
            None => {},
        }
        let (key, persist) = match loaded {
            Some(k) => (k, false),
            None => (key_from_token(token), true),
        };
        self.key = Some(key.clone());
        EnsuredKey { key, persist }
    }

    /// Settles the key: the key already held, else the one `loaded` from
    /// the key file, else a freshly generated one, for which a random
    /// number is drawn. The store holds the result from then on. Drawing
    /// panics on a machine whose operating system gives the generator no
    /// seed; no key is drawn where one is held or loaded.
    pub fn ensure(&mut self, loaded: Option<String>) -> (out: EnsuredKey)
        ensures
            final(self)@ == Some(out.key@),
            exists|token: u128| #[trigger]
                ensured_key(old(self)@, opt_text(loaded), token) == (out.key@, out.persist),
    {
        let need_token = self.key.is_none() && loaded.is_none();
        let token: u128 = if need_token {
            random_u128()
        } else {
            0
        };
        self.ensure_with(loaded, token)
    }
}

/// A store that has settled on a key keeps it, whatever the key file holds
/// then and whatever random number is drawn.
pub proof fn lemma_ensure_is_stable(
    cached: Option<Seq<char>>,
    loaded_first: Option<Seq<char>>,
    token_first: u128,
    loaded_second: Option<Seq<char>>,
    token_second: u128,
)
    ensures
        ({
            let first = ensured_key(cached, loaded_first, token_first).0;
            ensured_key(Some(first), loaded_second, token_second) == (first, false)
        }),
{
}

/// A key read back from the key file is the key that is used: what one
/// process persisted, the next one settles on.
pub proof fn lemma_persisted_key_survives(persisted: Seq<char>, token: u128)
    ensures
        ensured_key(None, Some(persisted), token) == (persisted, false),
{
}

/// The directory that holds the key file, given the user's configuration
/// directory: `geph4-credentials` pushed onto that directory. There is
/// such a directory exactly where a configuration directory is given, and
/// its path is the given one with the directory's name after it.
pub fn credentials_dir_in(config: Option<std::path::PathBuf>) -> (dir: Option<std::path::PathBuf>)
    ensures
        dir is Some <==> config is Some,
        dir is Some ==> "geph4-credentials"@.is_suffix_of(path_text(dir->Some_0)),
        config is Some && starts_plainly(path_text(config->Some_0)) ==> extends_with(
            path_text(config->Some_0),
            "geph4-credentials"@,
            path_text(dir->Some_0),
        ),
{
    proof {
        lemma_key_file_names();
    }
    match config {
        Some(mut dir) => {
            path_push(&mut dir, "geph4-credentials");
            Some(dir)
        },
        None => None,
    }
}

/// The key file, given the user's configuration directory: `rpc_key`
/// pushed onto the credentials directory of `credentials_dir_in`. There is
/// such a file exactly where a configuration directory is given, and its
/// path is the given one with the credentials directory's name and then
/// the file's name after it.
pub fn rpc_key_in(config: Option<std::path::PathBuf>) -> (path: Option<std::path::PathBuf>)
    ensures
        path is Some <==> config is Some,
        path is Some ==> "rpc_key"@.is_suffix_of(path_text(path->Some_0)),
        config is Some && starts_plainly(path_text(config->Some_0)) ==> exists|dir: Seq<char>|
            {
                &&& #[trigger] extends_with(path_text(config->Some_0), "geph4-credentials"@, dir)
                &&& extends_with(dir, "rpc_key"@, path_text(path->Some_0))
            },
{
    proof {
        lemma_key_file_names();
    }
    match credentials_dir_in(config) {
        Some(mut path) => {
            let ghost dir = path_text(path);
            proof {
                if config is Some && starts_plainly(path_text(config->Some_0)) {
                    assert(dir[0] == path_text(config->Some_0)[0]);
                }
            }
            path_push(&mut path, "rpc_key");
            proof {
                if config is Some && starts_plainly(path_text(config->Some_0)) {
                    assert(extends_with(path_text(config->Some_0), "geph4-credentials"@, dir));
                    assert(extends_with(dir, "rpc_key"@, path_text(path)));
                }
            }
            Some(path)
        },
        None => None,
    }
}

/// Where the RPC key is kept: the file `rpc_key` in the directory
/// `geph4-credentials` of the configuration directory that the platform
/// reports for the user. There is no such place where the platform
/// reports no configuration directory.
pub fn rpc_key_path() -> (path: Option<std::path::PathBuf>)
    ensures
        path is Some ==> "rpc_key"@.is_suffix_of(path_text(path->Some_0)),
{
    rpc_key_in(config_dir())
}

/// The key file's name and its directory's name are ordinary path
/// components.
pub proof fn lemma_key_file_names()
    ensures
        is_file_name("geph4-credentials"@),
        is_file_name("rpc_key"@),
{
    reveal_strlit("geph4-credentials");
    reveal_strlit("rpc_key");
    assert(seq!['.'].len() == 1 && seq!['.', '.'].len() == 2);
}

} // verus!
