//! Authentication kinds and the flag block each one contributes.

use vstd::prelude::*;
use crate::platform::{app_config_dir, is_file_name, path_to_str};
use crate::text::{push_str, push_text, texts};

verus! {

/// How the daemon authenticates to the network.
#[derive(Clone, Debug, PartialEq, Eq)]
pub enum RpcAuthKind {
    Password { username: String, password: String },
    Signature {},
}

/// The mathematical model of an [`RpcAuthKind`].
pub enum RpcAuthKindView {
    Password { username: Seq<char>, password: Seq<char> },
    Signature,
}

impl View for RpcAuthKind {
    type V = RpcAuthKindView;

    open spec fn view(&self) -> RpcAuthKindView {
        match *self {
            RpcAuthKind::Password { username, password } => RpcAuthKindView::Password {
                username: username@,
                password: password@,
            },
            RpcAuthKind::Signature {  } => RpcAuthKindView::Signature,
        }
    }
}

/// The block that selects password authentication.
pub open spec fn password_block(username: Seq<char>, password: Seq<char>) -> Seq<Seq<char>> {
    seq!["auth-password"@, "--username"@, username, "--password"@, password]
}

/// The block that selects signing-key authentication with the key stored under `sk_path`.
pub open spec fn keypair_block(sk_path: Seq<char>) -> Seq<Seq<char>> {
    seq!["auth-keypair"@, "--sk-path"@, sk_path]
}

/// Emits the password authentication block.
pub fn password_flags(username: String, password: String) -> (flags: Vec<String>)
    ensures
        texts(flags@) == password_block(username@, password@),
{
    let mut flags: Vec<String> = Vec::new();
    assert(texts(flags@) =~= Seq::<Seq<char>>::empty());
    push_str(&mut flags, "auth-password");
    push_str(&mut flags, "--username");
    push_text(&mut flags, username);
    push_str(&mut flags, "--password");
    push_text(&mut flags, password);
    assert(texts(flags@) =~= password_block(username@, password@));
    flags
}

/// Emits the signing-key authentication block for the key stored under `sk_path`.
pub fn keypair_flags(sk_path: String) -> (flags: Vec<String>)
    ensures
        texts(flags@) == keypair_block(sk_path@),
{
    let mut flags: Vec<String> = Vec::new();
    assert(texts(flags@) =~= Seq::<Seq<char>>::empty());
    push_str(&mut flags, "auth-keypair");
    push_str(&mut flags, "--sk-path");
    push_text(&mut flags, sk_path);
    assert(texts(flags@) =~= keypair_block(sk_path@));
    flags
}

/// Why no authentication block could be made.
#[derive(Clone, Copy, Debug, PartialEq, Eq, Structural)]
pub enum AuthFlagsError {
    /// The platform reports no place where the signing key is stored.
    NoKeyDirectory,
    /// The signing key's path is not valid Unicode.
    KeyPathNotUnicode,
}

impl AuthFlagsError {
    /// What the error says to the user.
    pub open spec fn message_text(self) -> Seq<char> {
        match self {
            AuthFlagsError::NoKeyDirectory => "failed to get sk path"@,
            AuthFlagsError::KeyPathNotUnicode => "converting sk-path to string failed"@,
        }
    }

    /// Describes the error to the user.
    pub fn message(&self) -> (text: String)
        ensures
            text@ == self.message_text(),
    {
        match self {
            AuthFlagsError::NoKeyDirectory => "failed to get sk path".to_owned(),
            AuthFlagsError::KeyPathNotUnicode => "converting sk-path to string failed".to_owned(),
        }
    }
}

/// The authentication block of `kind`, with `sk_path` as the resolved place
/// of the signing key, or the reason it could not be resolved.
pub open spec fn auth_block(kind: RpcAuthKindView, sk_path: Result<Seq<char>, AuthFlagsError>) -> Result<
    Seq<Seq<char>>,
    AuthFlagsError,
> {
    match kind {
        RpcAuthKindView::Password { username, password } => Ok(password_block(username, password)),
        RpcAuthKindView::Signature => match sk_path {
            Ok(p) => Ok(keypair_block(p)),
            Err(e) => Err(e),
        },
    }
}

/// The characters of a resolved key path, or the failure unchanged.
pub open spec fn sk_path_text(sk_path: Result<String, AuthFlagsError>) -> Result<
    Seq<char>,
    AuthFlagsError,
> {
    match sk_path {
        Ok(p) => Ok(p@),
        Err(e) => Err(e),
    }
}

/// The authentication block of `auth_kind`, given where the signing key was
/// found. Password authentication never looks at `sk_path`.
pub fn flags_with_sk_path(auth_kind: RpcAuthKind, sk_path: Result<String, AuthFlagsError>) -> (flags:
    Result<Vec<String>, AuthFlagsError>)
    ensures
        match (flags, auth_block(auth_kind@, sk_path_text(sk_path))) {
            (Ok(f), Ok(block)) => texts(f@) == block,
            (Err(e), Err(expected)) => e == expected,
            _ => false,
        },
{
    match auth_kind {
        RpcAuthKind::Password { username, password } => Ok(password_flags(username, password)),
        RpcAuthKind::Signature {  } => match sk_path {
            Ok(p) => Ok(keypair_flags(p)),
            Err(e) => Err(e),
        },
    }
}

/// Resolves where the signing key is stored: the configuration directory
/// of the application `geph4-sk`, a path that ends with that name. On
/// macOS it is the system's own directory, not an XDG one.
pub fn sk_path() -> (path: Result<String, AuthFlagsError>)
    ensures
        path is Ok ==> "geph4-sk"@.is_suffix_of(path->Ok_0@),
{
    proof {
        lemma_sk_name_is_file_name();
    }
    match app_config_dir("geph4-sk", false) {
        None => Err(AuthFlagsError::NoKeyDirectory),
        Some(dir) => match path_to_str(&dir) {
            None => Err(AuthFlagsError::KeyPathNotUnicode),
            Some(text) => Ok(text),
        },
    }
}

/// The application's name is an ordinary path component.
pub proof fn lemma_sk_name_is_file_name()
    ensures
        is_file_name("geph4-sk"@),
{
    reveal_strlit("geph4-sk");
    assert(seq!['.'].len() == 1 && seq!['.', '.'].len() == 2);
}

/// The authentication block of `auth_kind`. Password authentication always
/// succeeds; signing-key authentication resolves the key's place on this
/// machine and fails where there is none.
pub fn to_flags(auth_kind: RpcAuthKind) -> (flags: Result<Vec<String>, AuthFlagsError>)
    ensures
        match auth_kind@ {
            RpcAuthKindView::Password { username, password } => {
                &&& flags is Ok
                &&& texts(flags->Ok_0@) == password_block(username, password)
            },
            RpcAuthKindView::Signature => match flags {
                Ok(f) => exists|sk_path: Seq<char>|
                    {
                        &&& texts(f@) == #[trigger] keypair_block(sk_path)
                        &&& "geph4-sk"@.is_suffix_of(sk_path)
                    },
                Err(_) => true,
            },
        },
{
    let resolved = match &auth_kind {
        RpcAuthKind::Password { .. } => Err(AuthFlagsError::NoKeyDirectory),
        RpcAuthKind::Signature {  } => sk_path(),
    };
    let ghost kind = auth_kind@;
    let flags = flags_with_sk_path(auth_kind, resolved);
    assert(match (flags, auth_block(kind, sk_path_text(resolved))) {
        (Ok(f), Ok(block)) => texts(f@) == block,
        (Err(e), Err(expected)) => e == expected,
        _ => false,
    });
    flags
}

/// Each authentication kind emits its own block and not the other's: the
/// block opens with the sub-command of its kind, and the two sub-commands
/// differ.
pub proof fn lemma_auth_block_matches_kind(kind: RpcAuthKindView, sk_path: Seq<char>)
    ensures
        "auth-password"@ != "auth-keypair"@,
        match auth_block(kind, Ok(sk_path)) {
            Ok(block) => {
                &&& kind is Password <==> block[0] == "auth-password"@
                &&& kind is Signature <==> block[0] == "auth-keypair"@
                &&& kind is Password ==> block == password_block(
                    kind->Password_username,
                    kind->Password_password,
                )
                &&& kind is Signature ==> block == keypair_block(sk_path)
            },
            Err(_) => false,
        },
{
    lemma_subcommands_differ();
}

/// The two authentication sub-commands are different words.
pub proof fn lemma_subcommands_differ()
    ensures
        "auth-password"@ != "auth-keypair"@,
{
    reveal_strlit("auth-password");
    reveal_strlit("auth-keypair");
    assert("auth-password"@.len() == 13);
    assert("auth-keypair"@.len() == 12);
}

} // verus!
