//! Host directories that a virtual machine sees.

use vstd::prelude::*;

use crate::path;
use crate::text;

verus! {

#[derive(Debug, Clone, Copy, PartialEq, Eq, Structural)]
pub enum MountMode {
    ReadOnly,
    ReadWrite,
}

#[derive(Debug, PartialEq, Eq)]
pub struct MountSpec {
    pub host_path: String,
    pub guest_path: String,
    pub mode: MountMode,
}

impl Clone for MountSpec {
    fn clone(&self) -> (r: Self)
        ensures
            r == *self,
    {
        MountSpec {
            host_path: self.host_path.clone(),
            guest_path: self.guest_path.clone(),
            mode: self.mode,
        }
    }
}

/// The pieces of a mount specification between its colons.
pub open spec fn fields(raw: Seq<char>) -> Seq<Seq<char>> {
    text::split_at_all(text::trimmed(raw), ':')
}

/// Whether a mount specification has the form `<host_path>:<guest_path>[:<mode>]`.
pub open spec fn has_form(raw: Seq<char>) -> bool {
    2 <= fields(raw).len() <= 3 && fields(raw)[0].len() > 0 && fields(raw)[1].len() > 0
}

/// The mode that the third field asks for. Without a third field it is read-only.
pub open spec fn mode_of(fields: Seq<Seq<char>>) -> Option<MountMode> {
    if fields.len() < 3 || fields[2] == "ro"@ {
        Some(MountMode::ReadOnly)
    } else if fields[2] == "rw"@ {
        Some(MountMode::ReadWrite)
    } else {
        None
    }
}

/// Why a mount specification is refused. `host_exists` says whether the host path leads to
/// anything.
pub open spec fn spec_fault(raw: Seq<char>, host_exists: bool) -> Option<Seq<char>> {
    let f = fields(raw);
    if text::trimmed(raw).len() == 0 {
        Some("mount spec must not be empty"@)
    } else if !has_form(raw) {
        Some("mount spec must be in form <host_path>:<guest_path>[:ro|rw]"@)
    } else if mode_of(f) is None {
        Some("mount mode must be 'ro' or 'rw'"@)
    } else if !path::absolute(f[0]) {
        Some("host path must be absolute"@)
    } else if !host_exists {
        Some("host path does not exist: "@ + f[0])
    } else if !path::absolute(f[1]) {
        Some("guest path must be absolute"@)
    } else {
        None
    }
}

/// The host path of a mount specification, for its existence to be looked up.
pub fn mount_spec_host(raw: &str) -> (r: Option<String>)
    ensures
        text::opt_view(r) == (if has_form(raw@) {
            Some(fields(raw@)[0])
        } else {
            None
        }),
{
    let raw = text::trim(raw);
    let mut parts = text::split(raw.as_str(), ':');
    let ghost all = text::views(parts@);
    assert(all.len() == parts@.len());
    if parts.len() < 2 || parts.len() > 3 {
        return None;
    }
    assert(all[0] == parts@[0]@ && all[1] == parts@[1]@);
    if parts[0].as_str().is_empty() || parts[1].as_str().is_empty() {
        return None;
    }
    Some(parts.swap_remove(0))
}

/// Reads a mount specification.
pub fn parse_mount_spec(raw: &str, host_exists: bool) -> (r: Result<MountSpec, String>)
    ensures
        match r {
            Ok(spec) => {
                &&& spec_fault(raw@, host_exists) is None
                &&& spec.host_path@ == fields(raw@)[0]
                &&& spec.guest_path@ == fields(raw@)[1]
                &&& mode_of(fields(raw@)) == Some(spec.mode)
            },
            Err(message) => spec_fault(raw@, host_exists) == Some(message@),
        },
{
    let raw = text::trim(raw);
    if raw.as_str().is_empty() {
        return Err("mount spec must not be empty".to_owned());
    }
    let parts = text::split(raw.as_str(), ':');
    let ghost all = text::views(parts@);
    assert(all.len() == parts@.len());
    assert(forall|i: int| 0 <= i < all.len() ==> all[i] == (#[trigger] parts@[i])@);
    if parts.len() < 2 || parts.len() > 3 || parts[0].as_str().is_empty()
        || parts[1].as_str().is_empty() {
        return Err("mount spec must be in form <host_path>:<guest_path>[:ro|rw]".to_owned());
    }
    let mode = if parts.len() < 3 || text::same(parts[2].as_str(), "ro") {
        MountMode::ReadOnly
    } else if text::same(parts[2].as_str(), "rw") {
        MountMode::ReadWrite
    } else {
        return Err("mount mode must be 'ro' or 'rw'".to_owned());
    };
    if !path::is_absolute(parts[0].as_str()) {
        return Err("host path must be absolute".to_owned());
    }
    if !host_exists {
        return Err(text::cat2("host path does not exist: ", parts[0].as_str()));
    }
    if !path::is_absolute(parts[1].as_str()) {
        return Err("guest path must be absolute".to_owned());
    }
    Ok(MountSpec { host_path: parts[0].clone(), guest_path: parts[1].clone(), mode })
}

proof fn lemma_split_once(a: Seq<char>, b: Seq<char>)
    requires
        !a.contains(':'),
    ensures
        text::split_at_all(a + seq![':'] + b, ':') == seq![a] + text::split_at_all(b, ':'),
{
    let whole = a + seq![':'] + b;
    assert(whole[a.len() as int] == ':');
    assert forall|j: int| 0 <= j < a.len() implies whole[j] != ':' by {
        assert(a.contains(a[j]));
    }
    text::lemma_first_index_is(whole, ':', a.len() as int);
    assert(whole.take(a.len() as int) =~= a);
    assert(whole.skip((a.len() + 1) as int) =~= b);
}

proof fn lemma_split_none(a: Seq<char>)
    requires
        !a.contains(':'),
    ensures
        text::split_at_all(a, ':') == seq![a],
{
    text::lemma_first_index(a, ':');
}

/// Two absolute paths with a colon between them are a mount of the first at the second: read-only
/// alone or with `ro` behind them, and to be written to only with `rw` behind them. The texts are
/// those without blanks at their ends and without colons in the paths.
pub proof fn law_written_mount_is_read_back(
    raw: Seq<char>,
    host: Seq<char>,
    guest: Seq<char>,
    mode: Option<Seq<char>>,
)
    requires
        path::absolute(host) && !host.contains(':'),
        path::absolute(guest) && !guest.contains(':'),
        mode matches Some(m) ==> !m.contains(':'),
        text::trimmed(raw) == host + seq![':'] + (match mode {
            None => guest,
            Some(m) => guest + seq![':'] + m,
        }),
    ensures
        fields(raw)[0] == host,
        fields(raw)[1] == guest,
        mode is None ==> mode_of(fields(raw)) == Some(MountMode::ReadOnly),
        mode == Some("ro"@) ==> mode_of(fields(raw)) == Some(MountMode::ReadOnly),
        mode == Some("rw"@) ==> mode_of(fields(raw)) == Some(MountMode::ReadWrite),
        spec_fault(raw, true) is None <==> mode is None || mode == Some("ro"@) || mode == Some(
            "rw"@,
        ),
        spec_fault(raw, false) is Some,
{
    reveal_strlit("ro");
    reveal_strlit("rw");
    assert("ro"@[1] != "rw"@[1]);
    match mode {
        None => {
            lemma_split_once(host, guest);
            lemma_split_none(guest);
        },
        Some(m) => {
            lemma_split_once(host, guest + seq![':'] + m);
            lemma_split_once(guest, m);
            lemma_split_none(m);
        },
    }
}

/// A mount that is accepted leads from an absolute path that exists to an absolute path.
pub proof fn law_accepted_mount(raw: Seq<char>, host_exists: bool)
    requires
        spec_fault(raw, host_exists) is None,
    ensures
        host_exists,
        path::absolute(fields(raw)[0]),
        path::absolute(fields(raw)[1]),
        2 <= fields(raw).len() <= 3,
        mode_of(fields(raw)) == Some(MountMode::ReadWrite) <==> fields(raw).len() == 3
            && fields(raw)[2] == "rw"@,
{
    reveal_strlit("ro");
    reveal_strlit("rw");
    assert("ro"@[1] != "rw"@[1]);
}

/// The message for a host path that does not exist names it.
pub proof fn law_missing_host_path_is_named(raw: Seq<char>)
    requires
        has_form(raw),
        mode_of(fields(raw)) is Some,
        path::absolute(fields(raw)[0]),
        text::trimmed(raw).len() > 0,
    ensures
        spec_fault(raw, false) == Some("host path does not exist: "@ + fields(raw)[0]),
{
}

} // verus!
