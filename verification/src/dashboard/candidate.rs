//! The tasks that the dashboard offers to queue.

use vstd::prelude::*;

use crate::json;
use crate::json::Json;
use crate::order;
use crate::path;
use crate::path::PathKind;
use crate::task::LoadedTask;
use crate::text;

verus! {

/// What `str::to_lowercase` makes of a string.
pub uninterp spec fn lower_case(text: Seq<char>) -> Seq<char>;

/// Calls `str::to_lowercase`, whose result depends on the string alone.
#[verifier::external_body]
fn to_lower_case(text: &str) -> (r: String)
    ensures
        r@ == lower_case(text@),
{
    text.to_lowercase()
}

#[derive(Debug)]
pub struct TaskCandidate {
    pub name: String,
    pub description: Option<String>,
    pub dir: String,
}

/// What a `TaskCandidate` holds.
pub struct Candidate {
    pub name: Seq<char>,
    pub description: Option<Seq<char>>,
    pub dir: Seq<char>,
}

impl View for TaskCandidate {
    type V = Candidate;

    open spec fn view(&self) -> Candidate {
        Candidate {
            name: self.name@,
            description: text::opt_view(self.description),
            dir: self.dir@,
        }
    }
}

/// What several candidates hold.
pub open spec fn candidates(list: Seq<TaskCandidate>) -> Seq<Candidate> {
    list.map_values(|c: TaskCandidate| c@)
}

/// An entry of the directory that holds the tasks, and what became of loading it as a task.
pub struct FoundEntry {
    pub path: String,
    pub kind: PathKind,
    /// What stands where the task's definition belongs.
    pub definition: PathKind,
    pub loaded: Result<LoadedTask, String>,
    /// The path in its canonical form, if it has one.
    pub canonical: Option<String>,
}

/// The candidate that an entry gives, if it gives one.
pub open spec fn offered(entry: FoundEntry) -> Option<Candidate> {
    match entry.loaded {
        Ok(found) if entry.kind is Directory && entry.definition is File => Some(
            Candidate {
                name: match found.definition.name {
                    Some(name) => name@,
                    None => match path::last_name(entry.path@) {
                        Some(name) => name,
                        None => Seq::empty(),
                    },
                },
                description: text::opt_view(found.definition.description),
                dir: match entry.canonical {
                    Some(dir) => dir@,
                    None => entry.path@,
                },
            },
        ),
        _ => None,
    }
}

/// The candidates that several entries give, in the order of the entries.
pub open spec fn all_offered(entries: Seq<FoundEntry>) -> Seq<Candidate>
    decreases entries.len(),
{
    if entries.len() == 0 {
        Seq::empty()
    } else {
        match offered(entries.last()) {
            Some(c) => all_offered(entries.drop_last()).push(c),
            None => all_offered(entries.drop_last()),
        }
    }
}

/// Whether a candidate may stand before another: by its name without regard to case, and then
/// by its directory.
pub open spec fn may_precede(a: Candidate, b: Candidate) -> bool {
    if lower_case(a.name) == lower_case(b.name) {
        order::not_after(a.dir, b.dir)
    } else {
        order::not_after(lower_case(a.name), lower_case(b.name))
    }
}

/// Whether candidates stand in their order.
pub open spec fn in_order(list: Seq<Candidate>) -> bool {
    forall|i: int, j: int|
        0 <= i <= j < list.len() ==> may_precede(#[trigger] list[i], #[trigger] list[j])
}

/// Whether the order of two candidates is the same.
pub open spec fn ties(a: Candidate, b: Candidate) -> bool {
    lower_case(a.name) == lower_case(b.name) && a.dir == b.dir
}

/// Those candidates that tie with one, in the order in which they stand.
pub open spec fn tied(list: Seq<Candidate>, with: Candidate) -> Seq<Candidate> {
    list.filter(|c: Candidate| ties(c, with))
}

/// Whether two lists hold the same candidates, with those that tie in the same order.
pub open spec fn rearranged(a: Seq<Candidate>, b: Seq<Candidate>) -> bool {
    forall|with: Candidate| #[trigger] tied(a, with) == tied(b, with)
}

proof fn lemma_either_precedes(a: Candidate, b: Candidate)
    ensures
        may_precede(a, b) || may_precede(b, a),
        may_precede(a, a),
        may_precede(a, b) && may_precede(b, a) ==> ties(a, b),
{
    order::lemma_total(a.dir, b.dir);
    order::lemma_total(a.dir, a.dir);
    order::lemma_total(lower_case(a.name), lower_case(b.name));
    if may_precede(a, b) && may_precede(b, a) {
        if lower_case(a.name) == lower_case(b.name) {
            order::lemma_antisymmetric(a.dir, b.dir);
        } else {
            order::lemma_antisymmetric(lower_case(a.name), lower_case(b.name));
        }
    }
}

proof fn lemma_precedes_on(a: Candidate, b: Candidate, c: Candidate)
    requires
        may_precede(a, b),
        may_precede(b, c),
    ensures
        may_precede(a, c),
{
    let (x, y, z) = (lower_case(a.name), lower_case(b.name), lower_case(c.name));
    if x == y && y == z {
        order::lemma_transitive(a.dir, b.dir, c.dir);
    } else if x != y && y != z {
        order::lemma_transitive(x, y, z);
        if x == z {
            order::lemma_antisymmetric(x, y);
        }
    }
}

/// Putting a candidate behind all those that may precede it keeps the order.
proof fn lemma_insert(list: Seq<Candidate>, k: int, added: Candidate)
    requires
        in_order(list),
        0 <= k <= list.len(),
        k > 0 ==> may_precede(list[k - 1], added),
        k < list.len() ==> !may_precede(list[k], added),
    ensures
        in_order(list.insert(k, added)),
        rearranged(list.insert(k, added), list.push(added)),
{
    let now = list.insert(k, added);
    assert forall|j: int| k <= j < list.len() implies may_precede(added, #[trigger] list[j]) && !ties(
        list[j],
        added,
    ) by {
        lemma_either_precedes(list[k], added);
        assert(may_precede(list[k], list[j]));
        lemma_precedes_on(added, list[k], list[j]);
        if ties(list[j], added) {
            lemma_either_precedes(added, list[j]);
            order::lemma_total(list[j].dir, added.dir);
            assert(may_precede(list[j], added));
            lemma_precedes_on(list[k], list[j], added);
        }
    }
    assert forall|i: int, j: int| 0 <= i <= j < now.len() implies may_precede(
        #[trigger] now[i],
        #[trigger] now[j],
    ) by {
        if i == k && j == k {
            lemma_either_precedes(added, added);
        } else if j == k {
            assert(may_precede(list[i], list[k - 1]));
            lemma_precedes_on(list[i], list[k - 1], added);
        } else if i == k {
            assert(may_precede(added, list[j - 1]));
        } else {
            let i2 = if i < k {
                i
            } else {
                i - 1
            };
            let j2 = if j < k {
                j
            } else {
                j - 1
            };
            assert(may_precede(list[i2], list[j2]));
        }
    }
    assert forall|with: Candidate| #[trigger] tied(now, with) == tied(list.push(added), with) by {
        let pred = |c: Candidate| ties(c, with);
        let one = seq![added];
        assert(now =~= list.take(k) + one + list.skip(k));
        assert(list.push(added) =~= list.take(k) + list.skip(k) + one);
        Seq::filter_distributes_over_add(list.take(k) + one, list.skip(k), pred);
        Seq::filter_distributes_over_add(list.take(k), one, pred);
        Seq::filter_distributes_over_add(list.take(k) + list.skip(k), one, pred);
        Seq::filter_distributes_over_add(list.take(k), list.skip(k), pred);
        if ties(added, with) {
            assert forall|j: int| 0 <= j < list.skip(k).len() implies !pred(
                #[trigger] list.skip(k)[j],
            ) by {
                assert(list.skip(k)[j] == list[k + j]);
            }
            lemma_filter_none(list.skip(k), pred);
            assert(now.filter(pred) =~= list.push(added).filter(pred));
        } else {
            assert forall|j: int| 0 <= j < one.len() implies !pred(#[trigger] one[j]) by {}
            lemma_filter_none(one, pred);
            assert(now.filter(pred) =~= list.push(added).filter(pred));
        }
    }
}

proof fn lemma_filter_none(list: Seq<Candidate>, pred: spec_fn(Candidate) -> bool)
    requires
        forall|j: int| 0 <= j < list.len() ==> !pred(#[trigger] list[j]),
    ensures
        list.filter(pred) == Seq::<Candidate>::empty(),
{
    if list.filter(pred).len() > 0 {
        list.lemma_filter_pred(pred, 0);
        list.lemma_filter_contains_rev(pred, list.filter(pred)[0]);
        let j = choose|j: int| 0 <= j < list.len() && list[j] == list.filter(pred)[0];
        assert(!pred(list[j]));
    }
    assert(list.filter(pred) =~= Seq::<Candidate>::empty());
}

/// Adding the same candidate to both keeps one list a rearrangement of the other.
proof fn lemma_push_keeps(a: Seq<Candidate>, b: Seq<Candidate>, added: Candidate)
    requires
        rearranged(a, b),
    ensures
        rearranged(a.push(added), b.push(added)),
{
    assert forall|with: Candidate| #[trigger] tied(a.push(added), with) == tied(
        b.push(added),
        with,
    ) by {
        let pred = |c: Candidate| ties(c, with);
        assert(tied(a, with) == tied(b, with));
        a.lemma_filter_push(added, pred);
        b.lemma_filter_push(added, pred);
    }
}

fn precedes(a: &TaskCandidate, b: &TaskCandidate) -> (r: bool)
    ensures
        r == may_precede(a@, b@),
{
    let x = to_lower_case(a.name.as_str());
    let y = to_lower_case(b.name.as_str());
    if text::same(x.as_str(), y.as_str()) {
        order::is_not_after(a.dir.as_str(), b.dir.as_str())
    } else {
        order::is_not_after(x.as_str(), y.as_str())
    }
}

/// The candidate that an entry gives, if it gives one.
pub fn offer(entry: &FoundEntry) -> (r: Option<TaskCandidate>)
    ensures
        match r {
            Some(c) => offered(*entry) == Some(c@),
            None => offered(*entry) is None,
        },
{
    if !entry.kind.is_dir() || !entry.definition.is_file() {
        return None;
    }
    match &entry.loaded {
        Err(_) => None,
        Ok(found) => {
            let name = match &found.definition.name {
                Some(name) => name.clone(),
                None => match path::file_name(entry.path.as_str()) {
                    Some(name) => name,
                    None => {
                        let empty = String::new();
                        assert(empty@ =~= Seq::empty());
                        empty
                    },
                },
            };
            let dir = match &entry.canonical {
                Some(dir) => dir.clone(),
                None => entry.path.clone(),
            };
            Some(TaskCandidate { name, description: found.definition.description.clone(), dir })
        },
    }
}

/// Lists the tasks that can be queued. Entries that are no task, or none that can be loaded,
/// are passed over.
pub fn discover_task_candidates(entries: &[FoundEntry]) -> (r: Vec<TaskCandidate>)
    ensures
        in_order(candidates(r@)),
        rearranged(candidates(r@), all_offered(entries@)),
{
    let mut out: Vec<TaskCandidate> = Vec::new();
    let total: usize = entries.len();
    let mut i: usize = 0;
    proof {
        assert(candidates(out@) =~= all_offered(entries@.take(0)));
    }
    while i < total
        invariant
            i <= total,
            total == entries@.len(),
            in_order(candidates(out@)),
            rearranged(candidates(out@), all_offered(entries@.take(i as int))),
        decreases total - i,
    {
        proof {
            assert(entries@.take(i + 1).drop_last() =~= entries@.take(i as int));
            assert(entries@.take(i + 1).last() == entries@[i as int]);
        }
        if let Some(added) = offer(&entries[i]) {
            let mut k: usize = out.len();
            while k > 0 && !precedes(&out[k - 1], &added)
                invariant
                    k <= out@.len(),
                    k < out@.len() ==> !may_precede(out@[k as int]@, added@),
                decreases k,
            {
                k = k - 1;
            }
            let ghost before = out@;
            out.insert(k, added);
            proof {
                lemma_insert(candidates(before), k as int, added@);
                assert(candidates(out@) =~= candidates(before).insert(k as int, added@));
                lemma_push_keeps(
                    candidates(before),
                    all_offered(entries@.take(i as int)),
                    added@,
                );
                let old_list = candidates(before).push(added@);
                let new_list = all_offered(entries@.take(i as int)).push(added@);
                assert forall|with: Candidate| #[trigger] tied(candidates(out@), with) == tied(
                    new_list,
                    with,
                ) by {
                    assert(tied(old_list, with) == tied(new_list, with));
                }
            }
        }
        i = i + 1;
    }
    assert(entries@.take(i as int) =~= entries@);
    out
}

proof fn lemma_filter_keeps_count(
    list: Seq<Candidate>,
    pred: spec_fn(Candidate) -> bool,
    c: Candidate,
)
    requires
        pred(c),
    ensures
        list.filter(pred).to_multiset().count(c) == list.to_multiset().count(c),
    decreases list.len(),
{
    broadcast use vstd::seq_lib::group_to_multiset_ensures;

    if list.len() == 0 {
        assert(list.filter(pred) =~= list);
    } else {
        let rest = list.drop_last();
        assert(list =~= rest.push(list.last()));
        rest.lemma_filter_push(list.last(), pred);
        lemma_filter_keeps_count(rest, pred, c);
    }
}

proof fn lemma_offered_by_an_entry(entries: Seq<FoundEntry>, c: Candidate)
    ensures
        all_offered(entries).contains(c) <==> exists|j: int|
            0 <= j < entries.len() && offered(#[trigger] entries[j]) == Some(c),
    decreases entries.len(),
{
    if entries.len() > 0 {
        let rest = entries.drop_last();
        let last = entries.len() - 1;
        lemma_offered_by_an_entry(rest, c);
        if all_offered(entries).contains(c) {
            if offered(entries[last]) != Some(c) {
                let k = choose|k: int| 0 <= k < all_offered(entries).len() && all_offered(entries)[k]
                    == c;
                assert(all_offered(rest)[k] == c);
                assert(all_offered(rest).contains(c));
                let j = choose|j: int| 0 <= j < rest.len() && offered(#[trigger] rest[j]) == Some(c);
                assert(offered(entries[j]) == Some(c));
            }
        }
        if exists|j: int| 0 <= j < entries.len() && offered(#[trigger] entries[j]) == Some(c) {
            let j = choose|j: int| 0 <= j < entries.len() && offered(#[trigger] entries[j]) == Some(c);
            if j == last {
                assert(all_offered(entries)[all_offered(rest).len() as int] == c);
            } else {
                assert(offered(rest[j]) == Some(c));
                let k = choose|k: int| 0 <= k < all_offered(rest).len() && all_offered(rest)[k] == c;
                assert(all_offered(entries)[k] == c);
            }
        }
    }
}

/// The candidates that are listed are those that the entries give: each as often as it is given,
/// and no other. So each of them is a directory of the listing, and holds a definition that can be
/// loaded.
pub proof fn law_candidates_are_those_offered(list: Seq<Candidate>, entries: Seq<FoundEntry>)
    requires
        rearranged(list, all_offered(entries)),
    ensures
        list.to_multiset() == all_offered(entries).to_multiset(),
        forall|c: Candidate| #[trigger]
            list.contains(c) <==> exists|j: int|
                0 <= j < entries.len() && entries[j].kind is Directory && entries[j].definition is File
                    && entries[j].loaded is Ok && offered(#[trigger] entries[j]) == Some(c),
{
    broadcast use vstd::seq_lib::group_to_multiset_ensures;

    let all = all_offered(entries);
    assert forall|c: Candidate| #[trigger] list.to_multiset().count(c) == all.to_multiset().count(
        c,
    ) by {
        let pred = |d: Candidate| ties(d, c);
        lemma_filter_keeps_count(list, pred, c);
        lemma_filter_keeps_count(all, pred, c);
        assert(tied(list, c) == tied(all, c));
    }
    assert(list.to_multiset() =~= all.to_multiset());
    assert forall|c: Candidate| #[trigger] list.contains(c) <==> exists|j: int|
        0 <= j < entries.len() && entries[j].kind is Directory && entries[j].definition is File
            && entries[j].loaded is Ok && offered(#[trigger] entries[j]) == Some(c) by {
        assert(list.contains(c) <==> list.to_multiset().count(c) > 0);
        assert(all.contains(c) <==> all.to_multiset().count(c) > 0);
        lemma_offered_by_an_entry(entries, c);
    }
}

/// The directory that holds a workspace's tasks.
pub fn task_candidates_dir(workspace_root: &str) -> (r: String)
    ensures
        r@ == path::joined(workspace_root@, "tasks"@),
{
    path::join(workspace_root, "tasks")
}

/// The workspace that a package's directory belongs to: the directory above it.
pub fn detect_workspace_root(package_dir: &str) -> (r: String)
    ensures
        r@ == (match path::parent_of(package_dir@) {
            Some(dir) => dir,
            None => package_dir@,
        }),
{
    match path::parent(package_dir) {
        Some(dir) => dir,
        None => package_dir.to_owned(),
    }
}

/// The members of a candidate's object.
pub open spec fn candidate_members(c: Candidate) -> Map<Seq<char>, Json> {
    json::no_members().insert("name"@, Json::Text(c.name)).insert(
        "description"@,
        json::text_or_null(c.description),
    ).insert("dir"@, Json::Text(c.dir))
}

/// The values of several candidates.
pub open spec fn candidate_values(list: Seq<Candidate>) -> Seq<Json> {
    list.map_values(|c: Candidate| Json::Object(candidate_members(c)))
}

/// Writes the candidates as an object.
pub fn get_task_candidates(list: &[TaskCandidate]) -> (r: serde_json::Map<String, serde_json::Value>)
    ensures
        json::members(r) == json::no_members().insert(
            "tasks"@,
            Json::List(candidate_values(candidates(list@))),
        ),
{
    let ghost all = candidates(list@);
    let mut out: Vec<serde_json::Value> = Vec::new();
    let total: usize = list.len();
    let mut i: usize = 0;
    while i < total
        invariant
            i <= total,
            total == list@.len(),
            all == candidates(list@),
            json::trees(out@) == candidate_values(all.take(i as int)),
        decreases total - i,
    {
        let mut object = json::object();
        json::put_text(&mut object, "name", list[i].name.as_str());
        json::put_text_or_null(&mut object, "description", &list[i].description);
        json::put_text(&mut object, "dir", list[i].dir.as_str());
        let value = json::object_value(object);
        let ghost before = out@;
        out.push(value);
        proof {
            assert(json::trees(out@) =~= json::trees(before).push(json::tree(value)));
            assert(candidate_values(all.take(i + 1)) =~= candidate_values(all.take(i as int)).push(
                Json::Object(candidate_members(all[i as int])),
            ));
        }
        i = i + 1;
    }
    assert(all.take(i as int) =~= all);
    let mut object = json::object();
    let value = json::list_value(out);
    json::put(&mut object, "tasks", value);
    object
}

/// An entry is offered exactly if it is a directory with a task's file in it that can be loaded:
/// under the task's name, or else the directory's, with the task's description, and by its
/// resolved path where it could be resolved.
pub proof fn law_entry_is_offered_under_its_name(entry: FoundEntry)
    ensures
        offered(entry) is Some <==> entry.kind is Directory && entry.definition is File
            && entry.loaded is Ok,
        offered(entry) matches Some(c) ==> {
            let definition = entry.loaded->Ok_0.definition;
            &&& definition.name is Some ==> c.name == definition.name->0@
            &&& definition.name is None && path::last_name(entry.path@) is Some ==> c.name
                == path::last_name(entry.path@)->0
            &&& c.description == text::opt_view(definition.description)
            &&& entry.canonical is Some ==> c.dir == entry.canonical->0@
            &&& entry.canonical is None ==> c.dir == entry.path@
        },
{
}

/// Candidates come in the order of their names, whatever case they are written in, and those of
/// one name in the order of their directories.
pub proof fn law_order_of_candidates(list: Seq<Candidate>, i: int, j: int)
    requires
        in_order(list),
        0 <= i < j < list.len(),
    ensures
        order::not_after(lower_case(list[i].name), lower_case(list[j].name)),
        lower_case(list[i].name) == lower_case(list[j].name) ==> order::not_after(
            list[i].dir,
            list[j].dir,
        ),
{
    assert(may_precede(list[i], list[j]));
    if lower_case(list[i].name) == lower_case(list[j].name) {
        order::lemma_total(lower_case(list[i].name), lower_case(list[j].name));
    }
}

} // verus!
