//! Where the tool keeps its files, and what a machine gets unless its user says otherwise.

use vstd::prelude::*;

use crate::path;
use crate::text;
use crate::vm::platform::{HostProfile, UBUNTU_24_04_MINIMAL_AMD64_URL};

verus! {

#[derive(Debug)]
pub struct Config {
    /// The directory that holds everything else.
    pub base_dir: String,
    /// Where the image of new machines comes from.
    pub image_url: String,
    /// The memory of a new machine.
    pub memory: String,
    /// The number of processors of a new machine.
    pub cpus: u32,
}

/// The base directory for a user with the given home directory.
pub open spec fn base_dir_for(home: Option<Seq<char>>) -> Seq<char> {
    let at = match home {
        Some(h) => h,
        None => "."@,
    };
    path::joined(path::joined(path::joined(at, ".local"@), "share"@), "vm"@)
}

impl Config {
    /// The base directory for a user with the given home directory.
    pub fn default_base_dir(home: Option<&str>) -> (r: String)
        ensures
            r@ == base_dir_for(text::opt_str_view(home)),
    {
        let at = match home {
            Some(h) => h,
            None => ".",
        };
        let local = path::join(at, ".local");
        let share = path::join(local.as_str(), "share");
        path::join(share.as_str(), "vm")
    }

    /// The configuration for a user with the given home directory on the given host, as far as
    /// either is known.
    pub fn default(home: Option<&str>, host: Option<&HostProfile>) -> (r: Config)
        ensures
            r.base_dir@ == base_dir_for(text::opt_str_view(home)),
            r.image_url@ == (match host {
                Some(profile) => profile.image_url@,
                None => UBUNTU_24_04_MINIMAL_AMD64_URL@,
            }),
            r.memory@ == "4G"@,
            r.cpus == 2,
    {
        let image_url = match host {
            Some(profile) => profile.image_url.to_owned(),
            None => UBUNTU_24_04_MINIMAL_AMD64_URL.to_owned(),
        };
        Config {
            base_dir: Config::default_base_dir(home),
            image_url,
            memory: "4G".to_owned(),
            cpus: 2,
        }
    }

    /// Where downloaded images are kept.
    pub fn images_dir(&self) -> (r: String)
        ensures
            r@ == path::joined(self.base_dir@, "images"@),
    {
        path::join(self.base_dir.as_str(), "images")
    }

    /// Where machines are kept.
    pub fn instances_dir(&self) -> (r: String)
        ensures
            r@ == path::joined(self.base_dir@, "instances"@),
    {
        path::join(self.base_dir.as_str(), "instances")
    }

    /// Where SSH keys are kept.
    pub fn keys_dir(&self) -> (r: String)
        ensures
            r@ == path::joined(self.base_dir@, "keys"@),
    {
        path::join(self.base_dir.as_str(), "keys")
    }
}

/// The base directory lies below the user's home directory.
pub proof fn law_base_directory_lies_at_home(home: Seq<char>)
    requires
        home.len() > 0,
        home.last() != '/',
    ensures
        base_dir_for(Some(home)) == home + "/.local/share/vm"@,
        base_dir_for(None) == "./.local/share/vm"@,
{
    reveal_strlit("/.local/share/vm");
    reveal_strlit("./.local/share/vm");
    reveal_strlit(".local");
    reveal_strlit("share");
    reveal_strlit("vm");
    reveal_strlit(".");
    let a = path::joined(home, ".local"@);
    assert(a.last() == 'l');
    let b = path::joined(a, "share"@);
    assert(b.last() == 'e');
    assert(base_dir_for(Some(home)) =~= home + "/.local/share/vm"@);
    let c = path::joined("."@, ".local"@);
    assert(c.last() == 'l');
    let d = path::joined(c, "share"@);
    assert(d.last() == 'e');
    assert(base_dir_for(None) =~= "./.local/share/vm"@);
}

} // verus!
