//! The two documents that cloud-init reads: the instance's metadata and its user data.

use vstd::prelude::*;

use crate::text;

verus! {

/// Who the machine is.
#[derive(Debug, PartialEq, Eq)]
pub struct Metadata {
    pub instance_id: String,
    pub local_hostname: String,
}

impl Metadata {
    pub fn new(instance_id: String, local_hostname: String) -> (r: Metadata)
        ensures
            r == (Metadata { instance_id, local_hostname }),
    {
        Metadata { instance_id, local_hostname }
    }

    /// The metadata of a machine that is identified by its host name.
    pub fn with_hostname(local_hostname: String) -> (r: Metadata)
        ensures
            r.instance_id@ == "i-"@ + local_hostname@,
            r.local_hostname == local_hostname,
    {
        Metadata { instance_id: text::cat2("i-", local_hostname.as_str()), local_hostname }
    }

    /// The document that cloud-init reads.
    pub open spec fn text(self) -> Seq<char> {
        "instance-id: "@ + self.instance_id@ + "\nlocal-hostname: "@ + self.local_hostname@
    }

    pub fn render(&self) -> (r: String)
        ensures
            r@ == self.text(),
    {
        text::cat4(
            "instance-id: ",
            self.instance_id.as_str(),
            "\nlocal-hostname: ",
            self.local_hostname.as_str(),
        )
    }
}

/// An account of the machine.
#[derive(Debug, PartialEq, Eq)]
pub struct User {
    pub name: String,
    pub sudo: String,
    pub shell: String,
    pub ssh_authorized_keys: Vec<String>,
}

/// How the machine is set up.
#[derive(Debug, PartialEq, Eq)]
pub struct UserData {
    pub hostname: String,
    pub users: Vec<User>,
    pub runcmd: Vec<String>,
}

/// The lines of a list in the user data, one per entry, indented as given.
pub open spec fn list_lines(indent: Seq<char>, entries: Seq<Seq<char>>) -> Seq<char>
    decreases entries.len(),
{
    if entries.len() == 0 {
        seq![]
    } else {
        list_lines(indent, entries.drop_last()) + (indent + "- "@ + entries.last() + "\n"@)
    }
}

/// The lines of an account in the user data.
pub open spec fn user_lines(user: User) -> Seq<char> {
    "  - name: "@ + user.name@ + "\n    sudo: "@ + user.sudo@ + "\n    shell: "@ + user.shell@
        + "\n    ssh_authorized_keys:\n"@ + list_lines(
        "      "@,
        text::views(user.ssh_authorized_keys@),
    )
}

pub open spec fn users_lines(users: Seq<User>) -> Seq<char>
    decreases users.len(),
{
    if users.len() == 0 {
        seq![]
    } else {
        users_lines(users.drop_last()) + user_lines(users.last())
    }
}

/// The network of every machine: an address by DHCP on the virtual card.
pub open spec fn network_lines() -> Seq<char> {
    "network:\n  version: 2\n  ethernets:\n    id0:\n      match:\n        driver: virtio_net\n      dhcp4: true\n"@
}

/// The commands for the first boot, where there are any.
pub open spec fn runcmd_lines(commands: Seq<Seq<char>>) -> Seq<char> {
    if commands.len() == 0 {
        seq![]
    } else {
        "runcmd:\n"@ + list_lines("  "@, commands)
    }
}

fn append_list(out: &mut String, indent: &str, entries: &Vec<String>)
    ensures
        final(out)@ == old(out)@ + list_lines(indent@, text::views(entries@)),
{
    let ghost start = out@;
    let ghost all = text::views(entries@);
    let mut i: usize = 0;
    assert(out@ =~= start + list_lines(indent@, all.take(0)));
    while i < entries.len()
        invariant
            i <= entries.len(),
            all == text::views(entries@),
            out@ == start + list_lines(indent@, all.take(i as int)),
        decreases entries.len() - i,
    {
        let ghost before = out@;
        let line = text::cat4(indent, "- ", entries[i].as_str(), "\n");
        out.append(line.as_str());
        proof {
            assert(all.take(i + 1).drop_last() =~= all.take(i as int));
            assert(all.take(i + 1).last() == entries@[i as int]@);
            assert(out@ =~= start + (list_lines(indent@, all.take(i as int)) + line@));
        }
        i = i + 1;
    }
    assert(all.take(i as int) =~= all);
}

fn append_user(out: &mut String, user: &User)
    ensures
        final(out)@ == old(out)@ + user_lines(*user),
{
    let head = text::cat7(
        "  - name: ",
        user.name.as_str(),
        "\n    sudo: ",
        user.sudo.as_str(),
        "\n    shell: ",
        user.shell.as_str(),
        "\n    ssh_authorized_keys:\n",
    );
    out.append(head.as_str());
    append_list(out, "      ", &user.ssh_authorized_keys);
    assert(out@ =~= old(out)@ + user_lines(*user));
}

fn append_users(out: &mut String, users: &Vec<User>)
    ensures
        final(out)@ == old(out)@ + users_lines(users@),
{
    let ghost start = out@;
    let mut i: usize = 0;
    assert(out@ =~= start + users_lines(users@.take(0)));
    while i < users.len()
        invariant
            i <= users.len(),
            out@ == start + users_lines(users@.take(i as int)),
        decreases users.len() - i,
    {
        append_user(out, &users[i]);
        proof {
            assert(users@.take(i + 1).drop_last() =~= users@.take(i as int));
            assert(out@ =~= start + (users_lines(users@.take(i as int)) + user_lines(
                users@[i as int],
            )));
        }
        i = i + 1;
    }
    assert(users@.take(i as int) =~= users@);
}

impl UserData {
    /// The user data of a machine with one account, which may become root without a password and
    /// is reached with the given key.
    pub fn new(hostname: String, username: String, ssh_public_key: String) -> (r: UserData)
        ensures
            r.hostname == hostname,
            r.users@.len() == 1,
            r.users@[0].name == username,
            r.users@[0].sudo@ == "ALL=(ALL) NOPASSWD:ALL"@,
            r.users@[0].shell@ == "/bin/bash"@,
            r.users@[0].ssh_authorized_keys@ == seq![ssh_public_key],
            text::views(r.runcmd@) == seq!["systemctl enable ssh"@, "systemctl start ssh"@],
            r.is_for(hostname@, username@, ssh_public_key@),
    {
        let mut keys: Vec<String> = Vec::new();
        keys.push(ssh_public_key);
        assert(keys@ =~= seq![ssh_public_key]);
        let mut users: Vec<User> = Vec::new();
        users.push(
            User {
                name: username,
                sudo: "ALL=(ALL) NOPASSWD:ALL".to_owned(),
                shell: "/bin/bash".to_owned(),
                ssh_authorized_keys: keys,
            },
        );
        let mut runcmd: Vec<String> = Vec::new();
        runcmd.push("systemctl enable ssh".to_owned());
        runcmd.push("systemctl start ssh".to_owned());
        assert(text::views(runcmd@) =~= seq!["systemctl enable ssh"@, "systemctl start ssh"@]);
        let data = UserData { hostname, users, runcmd };
        assert(text::views(data.users@[0].ssh_authorized_keys@) =~= seq![ssh_public_key@]);
        data
    }

    /// Whether the user data is that of a machine with one account, before any command is added.
    pub open spec fn is_for(self, hostname: Seq<char>, username: Seq<char>, key: Seq<char>) -> bool {
        &&& self.hostname@ == hostname
        &&& self.users@.len() == 1
        &&& self.users@[0].name@ == username
        &&& self.users@[0].sudo@ == "ALL=(ALL) NOPASSWD:ALL"@
        &&& self.users@[0].shell@ == "/bin/bash"@
        &&& text::views(self.users@[0].ssh_authorized_keys@) == seq![key]
        &&& text::views(self.runcmd@) == seq!["systemctl enable ssh"@, "systemctl start ssh"@]
    }

    /// The document that cloud-init reads.
    pub open spec fn cloud_config(self) -> Seq<char> {
        "#cloud-config\nhostname: "@ + self.hostname@ + "\n"@ + network_lines() + "users:\n"@
            + users_lines(self.users@) + runcmd_lines(text::views(self.runcmd@))
    }

    pub fn to_cloud_config(&self) -> (r: String)
        ensures
            r@ == self.cloud_config(),
    {
        let mut yaml = text::cat5(
            "#cloud-config\nhostname: ",
            self.hostname.as_str(),
            "\n",
            "network:\n  version: 2\n  ethernets:\n    id0:\n      match:\n        driver: virtio_net\n      dhcp4: true\n",
            "users:\n",
        );
        append_users(&mut yaml, &self.users);
        let ghost before = yaml@;
        assert(text::views(self.runcmd@).len() == self.runcmd@.len());
        if self.runcmd.len() > 0 {
            yaml.append("runcmd:\n");
            append_list(&mut yaml, "  ", &self.runcmd);
        }
        assert(yaml@ =~= before + runcmd_lines(text::views(self.runcmd@)));
        yaml
    }
}

/// Both documents of a machine.
#[derive(Debug)]
pub struct CloudInitSeed {
    pub metadata: Metadata,
    pub userdata: UserData,
}

impl CloudInitSeed {
    /// The documents of a machine with one account.
    pub fn with_config(hostname: String, username: String, ssh_public_key: String) -> (r:
        CloudInitSeed)
        ensures
            r.metadata.instance_id@ == "i-"@ + hostname@,
            r.metadata.local_hostname == hostname,
            r.userdata.hostname == hostname,
            r.userdata.users@.len() == 1,
            r.userdata.users@[0].name == username,
            r.userdata.users@[0].sudo@ == "ALL=(ALL) NOPASSWD:ALL"@,
            r.userdata.users@[0].shell@ == "/bin/bash"@,
            r.userdata.users@[0].ssh_authorized_keys@ == seq![ssh_public_key],
            text::views(r.userdata.runcmd@) == seq![
                "systemctl enable ssh"@,
                "systemctl start ssh"@,
            ],
            r.userdata.is_for(hostname@, username@, ssh_public_key@),
    {
        CloudInitSeed {
            metadata: Metadata::with_hostname(hostname.clone()),
            userdata: UserData::new(hostname, username, ssh_public_key),
        }
    }

    /// Adds commands for the first boot, after those that are there.
    pub fn extend_runcmd(&mut self, commands: Vec<String>)
        ensures
            final(self).metadata == old(self).metadata,
            final(self).userdata.hostname == old(self).userdata.hostname,
            final(self).userdata.users == old(self).userdata.users,
            text::views(final(self).userdata.runcmd@) == text::views(old(self).userdata.runcmd@)
                + text::views(commands@),
    {
        let mut commands = commands;
        let ghost added = commands@;
        self.userdata.runcmd.append(&mut commands);
        assert(text::views(self.userdata.runcmd@) =~= text::views(old(self).userdata.runcmd@)
            + text::views(added));
    }

    pub fn metadata(&self) -> (r: &Metadata)
        ensures
            *r == self.metadata,
    {
        &self.metadata
    }

    pub fn userdata(&self) -> (r: &UserData)
        ensures
            *r == self.userdata,
    {
        &self.userdata
    }

    pub fn metadata_string(&self) -> (r: String)
        ensures
            r@ == self.metadata.text(),
    {
        self.metadata.render()
    }

    pub fn userdata_string(&self) -> (r: String)
        ensures
            r@ == self.userdata.cloud_config(),
    {
        self.userdata.to_cloud_config()
    }
}

/// Each entry of a list stands on a line of its own, behind a dash.
pub proof fn law_list_has_each_entry(indent: Seq<char>, entries: Seq<Seq<char>>, i: int)
    requires
        0 <= i < entries.len(),
    ensures
        text::occurs_in(indent + "- "@ + entries[i] + "\n"@, list_lines(indent, entries)),
    decreases entries.len(),
{
    let before = list_lines(indent, entries.drop_last());
    let last = indent + "- "@ + entries.last() + "\n"@;
    if i == entries.len() - 1 {
        text::lemma_occurs_between(before, last, seq![]);
        assert(before + last + seq![] =~= list_lines(indent, entries));
    } else {
        law_list_has_each_entry(indent, entries.drop_last(), i);
        text::lemma_occurs_within(seq![], indent + "- "@ + entries[i] + "\n"@, before, last);
        assert(seq![] + before + last =~= list_lines(indent, entries));
    }
}

/// The user data sets up the account: under the name of the user it lets the user become root
/// without a password, gives the user a shell, and authorizes the key. It is marked as what it is,
/// gives the machine its name, and asks for an address by DHCP.
pub proof fn law_user_data_lets_the_user_in(
    data: UserData,
    hostname: Seq<char>,
    username: Seq<char>,
    key: Seq<char>,
    commands: Seq<Seq<char>>,
)
    requires
        data.hostname@ == hostname,
        data.users@.len() == 1,
        data.users@[0].name@ == username,
        text::views(data.users@[0].ssh_authorized_keys@) == seq![key],
        text::views(data.runcmd@) == commands,
    ensures
        ({
            let user = data.users@[0];
            let account = "users:\n  - name: "@ + username + "\n    sudo: "@ + user.sudo@
                + "\n    shell: "@ + user.shell@ + "\n    ssh_authorized_keys:\n      - "@ + key
                + "\n"@;
            &&& ("#cloud-config\nhostname: "@ + hostname + "\n"@).is_prefix_of(data.cloud_config())
            &&& text::occurs_in(account, data.cloud_config())
            &&& text::occurs_in(
                "network:\n  version: 2\n  ethernets:\n    id0:\n      match:\n        driver: virtio_net\n      dhcp4: true\n"@,
                data.cloud_config(),
            )
            &&& forall|i: int|
                0 <= i < commands.len() ==> text::occurs_in(
                    "  - "@ + (#[trigger] commands[i]) + "\n"@,
                    data.cloud_config(),
                )
            &&& commands.len() > 0 ==> text::occurs_in(
                account + "runcmd:\n  - "@ + commands[0] + "\n"@,
                data.cloud_config(),
            )
        }),
{
    let user = data.users@[0];
    let whole = data.cloud_config();
    let start = "#cloud-config\nhostname: "@ + hostname + "\n"@;
    let account = "users:\n  - name: "@ + username + "\n    sudo: "@ + user.sudo@ + "\n    shell: "@
        + user.shell@ + "\n    ssh_authorized_keys:\n      - "@ + key + "\n"@;
    reveal_strlit("users:\n  - name: ");
    reveal_strlit("users:\n");
    reveal_strlit("  - name: ");
    reveal_strlit("\n    ssh_authorized_keys:\n      - ");
    reveal_strlit("\n    ssh_authorized_keys:\n");
    reveal_strlit("      ");
    reveal_strlit("- ");
    reveal_strlit("  ");
    reveal_strlit("  - ");
    reveal_strlit("runcmd:\n");
    reveal_strlit("runcmd:\n  - ");
    let keys = text::views(user.ssh_authorized_keys@);
    assert(keys.drop_last() =~= seq![]);
    assert(list_lines("      "@, seq![]) =~= seq![]);
    assert(list_lines("      "@, keys) =~= "      "@ + "- "@ + key + "\n"@);
    assert(data.users@.drop_last() =~= seq![]);
    assert(users_lines(seq![]) =~= seq![]);
    assert(users_lines(data.users@) =~= user_lines(user));
    let tail = runcmd_lines(commands);
    assert("users:\n"@ + user_lines(user) =~= account);
    assert(whole =~= start + network_lines() + account + tail);
    assert(start =~= whole.subrange(0, start.len() as int));
    text::lemma_occurs_between(start + network_lines(), account, tail);
    text::lemma_occurs_between(start, network_lines(), account + tail);
    assert(start + network_lines() + (account + tail) =~= whole);
    if commands.len() > 0 {
        let list = list_lines("  "@, commands);
        let head = start + network_lines() + account + "runcmd:\n"@;
        assert(whole =~= head + list + seq![]);
        assert forall|i: int| 0 <= i < commands.len() implies text::occurs_in(
            "  - "@ + (#[trigger] commands[i]) + "\n"@,
            whole,
        ) by {
            law_list_has_each_entry("  "@, commands, i);
            assert("  "@ + "- "@ + commands[i] + "\n"@ =~= "  - "@ + commands[i] + "\n"@);
            text::lemma_occurs_within(head, "  - "@ + commands[i] + "\n"@, list, seq![]);
        }
        let first = "  - "@ + commands[0] + "\n"@;
        lemma_list_starts("  "@, commands);
        let rest = list.skip(first.len() as int);
        assert("  "@ + "- "@ + commands[0] + "\n"@ =~= first);
        assert(list =~= first + rest);
        let block = account + "runcmd:\n  - "@ + commands[0] + "\n"@;
        assert(block =~= account + "runcmd:\n"@ + first);
        assert(whole =~= (start + network_lines()) + block + rest);
        text::lemma_occurs_between(start + network_lines(), block, rest);
    }
}

proof fn lemma_list_starts(indent: Seq<char>, entries: Seq<Seq<char>>)
    requires
        entries.len() > 0,
    ensures
        (indent + "- "@ + entries[0] + "\n"@).is_prefix_of(list_lines(indent, entries)),
    decreases entries.len(),
{
    let first = indent + "- "@ + entries[0] + "\n"@;
    let whole = list_lines(indent, entries);
    if entries.len() == 1 {
        assert(entries.drop_last() =~= seq![]);
        assert(list_lines(indent, seq![]) =~= seq![]);
        assert(whole =~= first);
        assert(first =~= whole.subrange(0, first.len() as int));
    } else {
        let before = list_lines(indent, entries.drop_last());
        lemma_list_starts(indent, entries.drop_last());
        assert(first =~= before.subrange(0, first.len() as int));
        assert(first =~= whole.subrange(0, first.len() as int));
    }
}

/// The account of a new machine may become root without a password, has a shell, and starts the
/// SSH server at the first boot.
pub proof fn law_new_account(
    data: UserData,
    hostname: Seq<char>,
    username: Seq<char>,
    key: Seq<char>,
)
    requires
        data.is_for(hostname, username, key),
    ensures
        text::occurs_in(
            "users:\n  - name: "@ + username
                + "\n    sudo: ALL=(ALL) NOPASSWD:ALL\n    shell: /bin/bash\n    ssh_authorized_keys:\n      - "@
                + key + "\nruncmd:\n  - systemctl enable ssh\n"@,
            data.cloud_config(),
        ),
        text::occurs_in("  - systemctl start ssh\n"@, data.cloud_config()),
{
    let commands = seq!["systemctl enable ssh"@, "systemctl start ssh"@];
    law_user_data_lets_the_user_in(data, hostname, username, key, commands);
    reveal_strlit("\n    sudo: ");
    reveal_strlit("ALL=(ALL) NOPASSWD:ALL");
    reveal_strlit("\n    shell: ");
    reveal_strlit("/bin/bash");
    reveal_strlit("\n    ssh_authorized_keys:\n      - ");
    reveal_strlit("\n");
    reveal_strlit("runcmd:\n  - ");
    reveal_strlit("systemctl enable ssh");
    reveal_strlit("systemctl start ssh");
    reveal_strlit("\nruncmd:\n  - systemctl enable ssh\n");
    reveal_strlit("  - systemctl start ssh\n");
    reveal_strlit("  - ");
    reveal_strlit(
        "\n    sudo: ALL=(ALL) NOPASSWD:ALL\n    shell: /bin/bash\n    ssh_authorized_keys:\n      - ",
    );
    let user = data.users@[0];
    let account = "users:\n  - name: "@ + username + "\n    sudo: "@ + user.sudo@ + "\n    shell: "@
        + user.shell@ + "\n    ssh_authorized_keys:\n      - "@ + key + "\n"@;
    let block = "users:\n  - name: "@ + username
        + "\n    sudo: ALL=(ALL) NOPASSWD:ALL\n    shell: /bin/bash\n    ssh_authorized_keys:\n      - "@
        + key + "\nruncmd:\n  - systemctl enable ssh\n"@;
    assert(commands[0] == "systemctl enable ssh"@ && commands[1] == "systemctl start ssh"@);
    assert(account + "runcmd:\n  - "@ + commands[0] + "\n"@ =~= block);
    assert("  - "@ + commands[1] + "\n"@ =~= "  - systemctl start ssh\n"@);
}

/// The metadata names the instance and its host on a line each.
pub proof fn law_metadata_names_the_machine(metadata: Metadata)
    ensures
        metadata.text() == "instance-id: "@ + metadata.instance_id@ + "\n"@ + ("local-hostname: "@
            + metadata.local_hostname@),
{
    reveal_strlit("\nlocal-hostname: ");
    reveal_strlit("\n");
    reveal_strlit("local-hostname: ");
    assert(metadata.text() =~= "instance-id: "@ + metadata.instance_id@ + "\n"@ + (
    "local-hostname: "@ + metadata.local_hostname@));
}

} // verus!
