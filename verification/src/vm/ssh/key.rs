//! The key pairs that machines are reached with.

use vstd::prelude::*;

use crate::path;
use crate::text;
use crate::vm::port::LockAttempt;

verus! {

/// What `DefaultHasher` makes of a string.
pub uninterp spec fn name_hash(name: Seq<char>) -> u64;

/// Calls `BuildHasher::hash_one` with hashers made by `DefaultHasher::default`, which all work
/// alike: the result depends on the string alone.
#[verifier::external_body]
fn stable_name_hash(name: &str) -> (r: u64)
    ensures
        r == name_hash(name@),
{
    let build = std::hash::BuildHasherDefault::<std::collections::hash_map::DefaultHasher>::default();
    std::hash::BuildHasher::hash_one(&build, name)
}

/// Whether a character may stand in the name of a key file.
pub open spec fn key_char(c: char) -> bool {
    text::ascii_alphanumeric(c) || c == '-' || c == '_' || c == '.'
}

fn is_key_char(c: char) -> (r: bool)
    ensures
        r == key_char(c),
{
    (c >= '0' && c <= '9') || (c >= 'A' && c <= 'Z') || (c >= 'a' && c <= 'z') || c == '-' || c
        == '_' || c == '.'
}

/// A character that may stand in the name of a key file: `c` itself, or an underscore.
pub open spec fn safe_char(c: char) -> char {
    if key_char(c) {
        c
    } else {
        '_'
    }
}

/// Whether a character is cut off at the ends of a key file's name.
pub open spec fn edge_char(c: char) -> bool {
    c == '.' || c == '_' || c == '-'
}

pub open spec fn cut_start(s: Seq<char>) -> Seq<char>
    decreases s.len(),
{
    if s.len() > 0 && edge_char(s[0]) {
        cut_start(s.drop_first())
    } else {
        s
    }
}

pub open spec fn cut_end(s: Seq<char>) -> Seq<char>
    decreases s.len(),
{
    if s.len() > 0 && edge_char(s.last()) {
        cut_end(s.drop_last())
    } else {
        s
    }
}

/// The name that the files of a key start with.
pub open spec fn sanitized(name: Seq<char>) -> Seq<char> {
    let cut = cut_end(cut_start(name.map_values(|c: char| safe_char(c))));
    if cut.len() == 0 {
        "vm-host"@
    } else {
        cut
    }
}

/// Makes a name that can stand in a file name.
pub fn sanitize_key_name(name: &str) -> (r: String)
    ensures
        r@ == sanitized(name@),
{
    let raw = text::to_chars(name);
    let mut v: Vec<char> = Vec::new();
    let mut n: usize = 0;
    while n < raw.len()
        invariant
            n <= raw.len(),
            v@ == raw@.take(n as int).map_values(|c: char| safe_char(c)),
        decreases raw.len() - n,
    {
        let c = if is_key_char(raw[n]) {
            raw[n]
        } else {
            '_'
        };
        v.push(c);
        assert(v@ =~= raw@.take(n + 1).map_values(|c: char| safe_char(c)));
        n = n + 1;
    }
    assert(raw@.take(n as int) =~= raw@);
    let mut i: usize = 0;
    assert(v@.skip(0) =~= v@);
    while i < v.len() && (v[i] == '.' || v[i] == '_' || v[i] == '-')
        invariant
            i <= v.len(),
            cut_start(v@) == cut_start(v@.skip(i as int)),
        decreases v.len() - i,
    {
        assert(v@.skip(i as int).drop_first() =~= v@.skip(i + 1));
        i = i + 1;
    }
    assert(cut_start(v@) == v@.skip(i as int));
    let mut j: usize = v.len();
    assert(v@.subrange(i as int, j as int) =~= v@.skip(i as int));
    while j > i && (v[j - 1] == '.' || v[j - 1] == '_' || v[j - 1] == '-')
        invariant
            i <= j <= v.len(),
            cut_end(v@.skip(i as int)) == cut_end(v@.subrange(i as int, j as int)),
        decreases j,
    {
        assert(v@.subrange(i as int, j as int).drop_last() =~= v@.subrange(i as int, j - 1));
        j = j - 1;
    }
    if i == j {
        "vm-host".to_owned()
    } else {
        text::from_chars(&v, i, j)
    }
}

proof fn lemma_cut_start(s: Seq<char>)
    requires
        forall|i: int| 0 <= i < s.len() ==> key_char(#[trigger] s[i]),
    ensures
        forall|i: int| 0 <= i < cut_start(s).len() ==> key_char(#[trigger] cut_start(s)[i]),
        cut_start(s).len() > 0 ==> !edge_char(cut_start(s)[0]),
    decreases s.len(),
{
    if s.len() > 0 && edge_char(s[0]) {
        lemma_cut_start(s.drop_first());
    }
}

proof fn lemma_cut_end(s: Seq<char>)
    requires
        forall|i: int| 0 <= i < s.len() ==> key_char(#[trigger] s[i]),
    ensures
        forall|i: int| 0 <= i < cut_end(s).len() ==> key_char(#[trigger] cut_end(s)[i]),
        cut_end(s).len() > 0 ==> !edge_char(cut_end(s).last()) && cut_end(s)[0] == s[0],
    decreases s.len(),
{
    if s.len() > 0 && edge_char(s.last()) {
        lemma_cut_end(s.drop_last());
    }
}

/// A sanitized name is not empty, holds only letters, digits, `-`, `_` and `.`, and starts and
/// ends with a letter or a digit.
pub proof fn law_sanitized_name(name: Seq<char>)
    ensures
        sanitized(name).len() > 0,
        forall|i: int| 0 <= i < sanitized(name).len() ==> key_char(#[trigger] sanitized(name)[i]),
        !edge_char(sanitized(name)[0]),
        !edge_char(sanitized(name).last()),
{
    reveal_strlit("vm-host");
    let safe = name.map_values(|c: char| safe_char(c));
    lemma_cut_start(safe);
    lemma_cut_end(cut_start(safe));
}

/// The files of a key, and how the key is made.
#[derive(Debug)]
pub struct KeyFiles {
    pub private_key_path: String,
    pub public_key_path: String,
    pub lock_path: String,
    /// The arguments of `ssh-keygen`.
    pub keygen_args: Vec<String>,
}

/// What the names of a key's files start with.
pub open spec fn key_name(name: Seq<char>, hash: u64) -> Seq<char> {
    sanitized(name) + "-"@ + text::hexadecimal(hash as nat)
}

/// The private key's file.
pub open spec fn private_key(base_dir: Seq<char>, name: Seq<char>, hash: u64) -> Seq<char> {
    path::joined(base_dir, key_name(name, hash) + ".key"@)
}

/// The arguments that make a key without a passphrase.
pub open spec fn keygen(key_path: Seq<char>, name: Seq<char>) -> Seq<Seq<char>> {
    seq!["-t"@, "ed25519"@] + seq!["-f"@, key_path] + seq!["-N"@, ""@] + seq!["-C"@, "vm@"@ + name]
}

/// Whether `files` are the files of the key for `name`, which has the given hash.
pub open spec fn key_files(files: KeyFiles, base_dir: Seq<char>, name: Seq<char>, hash: u64) -> bool {
    let key = private_key(base_dir, name, hash);
    &&& files.private_key_path@ == key
    &&& files.public_key_path@ == key + ".pub"@
    &&& files.lock_path@ == path::joined(base_dir, key_name(name, hash) + ".lock"@)
    &&& text::views(files.keygen_args@) == keygen(key, name)
}

/// What to do next about a key.
#[derive(Debug, Clone, Copy, PartialEq, Eq, Structural)]
pub enum KeyStep {
    /// Read the public key that is there.
    ReadPublicKey,
    /// Take the lock, then look again.
    TakeLock,
    /// Make the key, then read the public key.
    Generate,
}

/// What to do next about the lock of a key.
#[derive(Debug)]
pub enum FileLockStep {
    Held,
    /// Pause, then try again.
    Wait,
    Fail { message: String },
}

/// How often the lock of a key is tried.
pub const MAX_LOCK_ATTEMPTS: u32 = 100;

/// Keeps keys in a directory.
#[derive(Debug)]
pub struct SshKeyManager {
    pub base_dir: String,
}

impl SshKeyManager {
    pub fn new(base_dir: &str) -> (r: SshKeyManager)
        ensures
            r.base_dir@ == base_dir@,
    {
        SshKeyManager { base_dir: base_dir.to_owned() }
    }

    /// The files of the key for `name`, whose hash is given.
    pub fn files_for_hash(&self, name: &str, hash: u64) -> (r: KeyFiles)
        ensures
            key_files(r, self.base_dir@, name@, hash),
    {
        let sanitized_name = sanitize_key_name(name);
        let h = text::hex(hash);
        let key = text::cat3(sanitized_name.as_str(), "-", h.as_str());
        let key_file = text::cat2(key.as_str(), ".key");
        let lock_file = text::cat2(key.as_str(), ".lock");
        let private_key_path = path::join(self.base_dir.as_str(), key_file.as_str());
        let lock_path = path::join(self.base_dir.as_str(), lock_file.as_str());
        let public_key_path = text::cat2(private_key_path.as_str(), ".pub");
        let comment = text::cat2("vm@", name);
        let mut keygen_args: Vec<String> = Vec::new();
        text::push_pair(&mut keygen_args, "-t", "ed25519");
        assert(text::views(keygen_args@) =~= seq!["-t"@, "ed25519"@]);
        text::push_pair(&mut keygen_args, "-f", private_key_path.as_str());
        text::push_pair(&mut keygen_args, "-N", "");
        text::push_pair(&mut keygen_args, "-C", comment.as_str());
        KeyFiles { private_key_path, public_key_path, lock_path, keygen_args }
    }

    /// The files of the key for `name`.
    pub fn generate_key_pair(&self, name: &str) -> (r: KeyFiles)
        ensures
            key_files(r, self.base_dir@, name@, name_hash(name@)),
    {
        let hash = stable_name_hash(name);
        self.files_for_hash(name, hash)
    }

    /// Decides what to do about a key, from whether its file exists and whether this process
    /// holds the key's lock.
    pub fn next_step(&self, key_exists: bool, locked: bool) -> (r: KeyStep)
        ensures
            r == key_step(key_exists, locked),
            r == (if key_exists {
                KeyStep::ReadPublicKey
            } else if locked {
                KeyStep::Generate
            } else {
                KeyStep::TakeLock
            }),
    {
        if key_exists {
            KeyStep::ReadPublicKey
        } else if locked {
            KeyStep::Generate
        } else {
            KeyStep::TakeLock
        }
    }

    /// The public key in the text of its file.
    pub fn read_public_key(&self, contents: &str) -> (r: String)
        ensures
            r@ == text::trimmed(contents@),
    {
        text::trim(contents)
    }
}

/// Decides on the next step of taking a key's lock, after attempt number `attempts`, counted from
/// 1.
pub fn acquire_file_lock(lock_path: &str, attempts: u32, attempt: &LockAttempt) -> (r: FileLockStep)
    ensures
        is_file_lock_step(r, lock_path@, attempts, *attempt),
        match *attempt {
            LockAttempt::Created => r is Held,
            LockAttempt::Exists => if attempts < MAX_LOCK_ATTEMPTS {
                r is Wait
            } else {
                r matches FileLockStep::Fail { message } && message@
                    == "Timeout waiting for lock file "@ + lock_path@
            },
            LockAttempt::Failed { .. } => r matches FileLockStep::Fail { message } && message@
                == "Failed to acquire lock file "@ + lock_path@,
        },
{
    match attempt {
        LockAttempt::Created => FileLockStep::Held,
        LockAttempt::Exists => if attempts < MAX_LOCK_ATTEMPTS {
            FileLockStep::Wait
        } else {
            FileLockStep::Fail { message: text::cat2("Timeout waiting for lock file ", lock_path) }
        },
        LockAttempt::Failed { .. } => FileLockStep::Fail {
            message: text::cat2("Failed to acquire lock file ", lock_path),
        },
    }
}

/// A key is made where it is looked for, without a passphrase, as an Ed25519 key whose comment
/// names its host. The public key lies beside the private key, and so does the lock; all of them
/// have the name of the host, made fit for a file name, in front.
pub proof fn law_key_is_made_where_it_is_looked_for(
    files: KeyFiles,
    base_dir: Seq<char>,
    name: Seq<char>,
    hash: u64,
)
    requires
        key_files(files, base_dir, name, hash),
    ensures
        ({
            let args = text::views(files.keygen_args@);
            &&& args.len() == 8
            &&& text::gives(args, "-f"@, files.private_key_path@)
            &&& text::gives(args, "-t"@, "ed25519"@)
            &&& text::gives(args, "-N"@, ""@)
            &&& text::gives(args, "-C"@, "vm@"@ + name)
        }),
        files.public_key_path@ == files.private_key_path@ + ".pub"@,
        base_dir.is_prefix_of(files.private_key_path@),
        (sanitized(name) + "-"@ + text::hexadecimal(hash as nat) + ".key"@).is_suffix_of(
            files.private_key_path@,
        ),
        base_dir.is_prefix_of(files.lock_path@),
        (sanitized(name) + "-"@ + text::hexadecimal(hash as nat) + ".lock"@).is_suffix_of(
            files.lock_path@,
        ),
{
    let args = text::views(files.keygen_args@);
    text::lemma_gives(args, 0);
    text::lemma_gives(args, 2);
    text::lemma_gives(args, 4);
    text::lemma_gives(args, 6);
    law_sanitized_name(name);
    let key_file = key_name(name, hash) + ".key"@;
    let lock_file = key_name(name, hash) + ".lock"@;
    assert(key_file[0] == sanitized(name)[0] && lock_file[0] == sanitized(name)[0]);
    assert(!path::absolute(key_file) && !path::absolute(lock_file));
    path::lemma_joined_ends(base_dir, key_file);
    path::lemma_joined_ends(base_dir, lock_file);
}

/// What to do next about a key.
pub open spec fn key_step(key_exists: bool, locked: bool) -> KeyStep {
    if key_exists {
        KeyStep::ReadPublicKey
    } else if locked {
        KeyStep::Generate
    } else {
        KeyStep::TakeLock
    }
}

/// A key that is there is never made anew, and one that is not there is made only under its lock.
pub proof fn law_key_is_made_once(key_exists: bool, locked: bool)
    ensures
        key_step(key_exists, locked) == KeyStep::Generate <==> !key_exists && locked,
        key_step(key_exists, locked) == KeyStep::ReadPublicKey <==> key_exists,
        key_step(key_exists, locked) == KeyStep::TakeLock <==> !key_exists && !locked,
{
}

/// Whether `step` is the next one of taking a key's lock.
pub open spec fn is_file_lock_step(
    step: FileLockStep,
    lock_path: Seq<char>,
    attempts: u32,
    attempt: LockAttempt,
) -> bool {
    match attempt {
        LockAttempt::Created => step is Held,
        LockAttempt::Exists => if attempts < MAX_LOCK_ATTEMPTS {
            step is Wait
        } else {
            step matches FileLockStep::Fail { message } && message@
                == "Timeout waiting for lock file "@ + lock_path
        },
        LockAttempt::Failed { .. } => step matches FileLockStep::Fail { message } && message@
            == "Failed to acquire lock file "@ + lock_path,
    }
}

/// A lock is held exactly if its file was made by this process. While another process has it, it
/// is waited for, a hundred times at most. The message for one that is not got names its file.
pub proof fn law_lock_is_held_by_its_maker(
    step: FileLockStep,
    lock_path: Seq<char>,
    attempts: u32,
    attempt: LockAttempt,
)
    requires
        is_file_lock_step(step, lock_path, attempts, attempt),
    ensures
        step is Held <==> attempt is Created,
        step is Wait <==> attempt is Exists && attempts < 100,
        step is Fail ==> lock_path.is_suffix_of(step->message@),
        attempt is Failed ==> ("Failed to acquire"@).is_prefix_of(step->message@),
        attempt is Exists && attempts >= 100 ==> ("Timeout"@).is_prefix_of(step->message@),
{
    if step is Fail {
        let message = step->message@;
        let n = message.len() as int;
        assert(lock_path =~= message.subrange(n - lock_path.len(), n));
        reveal_strlit("Failed to acquire");
        reveal_strlit("Failed to acquire lock file ");
        reveal_strlit("Timeout");
        reveal_strlit("Timeout waiting for lock file ");
        if attempt is Failed {
            assert("Failed to acquire"@ =~= message.subrange(0, 17));
        } else {
            assert("Timeout"@ =~= message.subrange(0, 7));
        }
    }
}

} // verus!
