//! Desired display state of a platform member.
//!
//! What a member should be called and which roles the member should gain is a
//! function of the current name, the roles held, the verification record (if
//! there is one) and the role mapping. Roles are only ever added. A write is
//! planned only where the desired state differs from the current one, so a
//! second pass over a member whose writes went through plans nothing.

use vstd::prelude::*;
use crate::ignore_set::{with_member, IgnoreSet};
use crate::roles::{role_for, RoleMapping};
use crate::text::{
    all_ascii, ascii, ascii_only, from_chars, is_ascii, keep_ascii, lemma_ascii_only,
    lemma_tidy_is_trimmed, lemma_trailing_blank_is_trimmed, lemma_trimmed, tidy, to_chars, trim,
    trimmed,
};
use crate::token::tags_view;

verus! {

/// The attribute tags of a verification record.
#[derive(Debug, Clone, PartialEq, Eq)]
pub struct Claims {
    pub major: Vec<String>,
    pub school: Vec<String>,
    pub affiliation: Vec<String>,
}

/// The mathematical content of [`Claims`].
pub struct ClaimsTags {
    pub major: Seq<Seq<char>>,
    pub school: Seq<Seq<char>>,
    pub affiliation: Seq<Seq<char>>,
}

impl View for Claims {
    type V = ClaimsTags;

    open spec fn view(&self) -> ClaimsTags {
        ClaimsTags {
            major: tags_view(self.major@),
            school: tags_view(self.school@),
            affiliation: tags_view(self.affiliation@),
        }
    }
}

/// A verification record as it is stored: the member it belongs to, and the
/// member's tags.
#[derive(Debug, Clone, PartialEq, Eq)]
pub struct UserData {
    pub discord_id: String,
    pub claims: Claims,
}

/// The roles to grant after one more tag was looked up: the role that the
/// tag stands for joins them, unless the member holds it or it is among them
/// already.
pub open spec fn with_grant(
    sofar: Seq<u64>,
    tag: Seq<char>,
    mapping: Seq<(Seq<char>, u64)>,
    held: Seq<u64>,
) -> Seq<u64> {
    match role_for(mapping, tag) {
        Some(role) => if held.contains(role) || sofar.contains(role) {
            sofar
        } else {
            sofar.push(role)
        },
        None => sofar,
    }
}

/// The roles to grant after a list of tags was looked up in order, starting
/// from the roles in `sofar`.
pub open spec fn grants_onto(
    sofar: Seq<u64>,
    tags: Seq<Seq<char>>,
    mapping: Seq<(Seq<char>, u64)>,
    held: Seq<u64>,
) -> Seq<u64>
    decreases tags.len(),
{
    if tags.len() == 0 {
        sofar
    } else {
        with_grant(grants_onto(sofar, tags.drop_last(), mapping, held), tags.last(), mapping, held)
    }
}

/// The roles to grant for a list of tags: each role that a tag stands for and
/// the member lacks, once, in the order in which the tags first name it.
pub open spec fn grants(tags: Seq<Seq<char>>, mapping: Seq<(Seq<char>, u64)>, held: Seq<u64>) -> Seq<
    u64,
> {
    grants_onto(Seq::empty(), tags, mapping, held)
}

/// The tags of a record in the order in which they are looked up:
/// affiliations, then majors, then schools.
pub open spec fn member_tags(record: ClaimsTags) -> Seq<Seq<char>> {
    record.affiliation + record.major + record.school
}

/// The marker that a verified student's name ends with.
pub open spec fn marker() -> Seq<char> {
    seq![' ', '\u{2713}']
}

/// The tag that earns the marker.
pub open spec fn student() -> Seq<char> {
    "student"@
}

/// Whether the record is a student's.
pub open spec fn is_student(record: ClaimsTags) -> bool {
    record.affiliation.contains(student())
}

/// A name with every non-ASCII character dropped and then trimmed.
pub open spec fn cleaned(name: Seq<char>) -> Seq<char> {
    trimmed(ascii_only(name))
}

/// The name a member should have: the cleaned name, with the marker where the
/// record is a student's. The marker is not ASCII, so one that the name
/// already carries is dropped before the new one is appended.
pub open spec fn desired_name(name: Seq<char>, record: Option<ClaimsTags>) -> Seq<char> {
    match record {
        Some(tags) => if is_student(tags) {
            cleaned(name) + marker()
        } else {
            cleaned(name)
        },
        None => cleaned(name),
    }
}

/// The roles a member should gain: none without a record, else each role
/// that a tag of the record stands for and the member lacks, once.
pub open spec fn desired_roles(
    held: Seq<u64>,
    record: Option<ClaimsTags>,
    mapping: Seq<(Seq<char>, u64)>,
) -> Seq<u64> {
    match record {
        Some(tags) => grants(member_tags(tags), mapping, held),
        None => Seq::empty(),
    }
}

/// The desired state of one member.
#[derive(Debug, Clone, PartialEq, Eq)]
pub struct MemberPlan {
    pub desired_name: String,
    pub role_additions: Vec<u64>,
}

/// The mathematical content of a [`MemberPlan`].
pub struct PlanView {
    pub desired_name: Seq<char>,
    pub role_additions: Seq<u64>,
}

impl View for MemberPlan {
    type V = PlanView;

    open spec fn view(&self) -> PlanView {
        PlanView { desired_name: self.desired_name@, role_additions: self.role_additions@ }
    }
}

/// The writes that bring a member to the desired state.
#[derive(Debug, Clone, PartialEq, Eq)]
pub struct MemberWrites {
    /// The new nickname, where the desired name differs from the current one.
    pub nickname: Option<String>,
    /// The roles to grant; empty where there is nothing to grant.
    pub roles: Vec<u64>,
}

/// The mathematical content of [`MemberWrites`].
pub struct WritesView {
    pub nickname: Option<Seq<char>>,
    pub roles: Seq<u64>,
}

impl View for MemberWrites {
    type V = WritesView;

    open spec fn view(&self) -> WritesView {
        WritesView {
            nickname: match self.nickname {
                Some(name) => Some(name@),
                None => None,
            },
            roles: self.roles@,
        }
    }
}

/// The content of an optional record.
pub open spec fn record_view(record: Option<&Claims>) -> Option<ClaimsTags> {
    match record {
        Some(claims) => Some(claims@),
        None => None,
    }
}

/// The desired state of a member with this name, these roles and this record.
pub open spec fn evaluation(
    name: Seq<char>,
    held: Seq<u64>,
    record: Option<ClaimsTags>,
    mapping: Seq<(Seq<char>, u64)>,
) -> PlanView {
    PlanView {
        desired_name: desired_name(name, record),
        role_additions: desired_roles(held, record, mapping),
    }
}

/// The writes that take a member called `name` to `plan`.
pub open spec fn writes_for(plan: PlanView, name: Seq<char>) -> WritesView {
    WritesView {
        nickname: if plan.desired_name == name {
            None
        } else {
            Some(plan.desired_name)
        },
        roles: plan.role_additions,
    }
}

/// Whether nothing is to be written.
pub open spec fn nothing_to_write(writes: WritesView) -> bool {
    writes.nickname is None && writes.roles.len() == 0
}

/// Whether `role` is among `roles`.
pub fn holds(roles: &[u64], role: u64) -> (held: bool)
    ensures
        held == roles@.contains(role),
{
    let mut i: usize = 0;
    while i < roles.len()
        invariant
            i <= roles.len(),
            forall|j: int| 0 <= j < i ==> roles@[j] != role,
        decreases roles.len() - i,
    {
        if roles[i] == role {
            return true;
        }
        i += 1;
    }
    false
}

/// Whether `tag` is among `tags`.
pub fn has_tag(tags: &Vec<String>, tag: &str) -> (found: bool)
    ensures
        found == tags_view(tags@).contains(tag@),
{
    let wanted = String::from_str(tag);
    let mut i: usize = 0;
    while i < tags.len()
        invariant
            i <= tags.len(),
            wanted@ == tag@,
            forall|j: int| 0 <= j < i ==> tags_view(tags@)[j] != tag@,
        decreases tags.len() - i,
    {
        if tags[i] == wanted {
            assert(tags_view(tags@)[i as int] == tag@);
            return true;
        }
        i += 1;
    }
    false
}

/// Looks the tags up in order and appends to `out` each role to grant that
/// is not in it yet.
fn collect_grants(tags: &Vec<String>, mapping: &RoleMapping, held: &[u64], out: &mut Vec<u64>)
    ensures
        final(out)@ == grants_onto(old(out)@, tags_view(tags@), mapping@, held@),
{
    let ghost all = tags_view(tags@);
    let mut i: usize = 0;
    while i < tags.len()
        invariant
            i <= tags.len(),
            all == tags_view(tags@),
            out@ == grants_onto(old(out)@, all.take(i as int), mapping@, held@),
        decreases tags.len() - i,
    {
        assert(all.take(i + 1).drop_last() == all.take(i as int));
        match mapping.role_for(&tags[i]) {
            Some(role) => {
                if !holds(held, role) && !holds(out.as_slice(), role) {
                    out.push(role);
                }
            },
            None => {},
        }
        i += 1;
    }
    assert(all.take(tags.len() as int) == all);
}

/// The name a member should have.
pub fn desired_name_of(name: &str, record: Option<&Claims>) -> (desired: String)
    ensures
        desired@ == desired_name(name@, record_view(record)),
{
    let chars = to_chars(name);
    let kept = keep_ascii(chars.as_slice());
    let mut core = trim(kept.as_slice());
    let marked = match record {
        Some(claims) => has_tag(&claims.affiliation, "student"),
        None => false,
    };
    if marked {
        core.push(' ');
        core.push('\u{2713}');
    }
    from_chars(core.as_slice())
}

/// Computes the desired state of a member from the current name, the roles
/// held, the verification record and the role mapping.
pub fn evaluate_member(
    name: &str,
    roles: &[u64],
    record: Option<&Claims>,
    mapping: &RoleMapping,
) -> (plan: MemberPlan)
    ensures
        plan@ == evaluation(name@, roles@, record_view(record), mapping@),
        plan.role_additions@.no_duplicates(),
        forall|i: int|
            0 <= i < plan.role_additions@.len() ==> !roles@.contains(
                #[trigger] plan.role_additions@[i],
            ),
{
    let desired_name = desired_name_of(name, record);
    let mut role_additions: Vec<u64> = Vec::new();
    match record {
        Some(claims) => {
            collect_grants(&claims.affiliation, mapping, roles, &mut role_additions);
            collect_grants(&claims.major, mapping, roles, &mut role_additions);
            collect_grants(&claims.school, mapping, roles, &mut role_additions);
            proof {
                let tags = claims@;
                let none = Seq::<u64>::empty();
                lemma_grants_of_joined_lists(none, tags.affiliation, tags.major, mapping@, roles@);
                lemma_grants_of_joined_lists(
                    none,
                    tags.affiliation + tags.major,
                    tags.school,
                    mapping@,
                    roles@,
                );
                lemma_grants(none, member_tags(tags), mapping@, roles@);
                assert forall|i: int| 0 <= i < role_additions@.len() implies !roles@.contains(
                    #[trigger] role_additions@[i],
                ) by {
                    assert(role_additions@.contains(role_additions@[i]));
                }
            }
        },
        None => {},
    }
    MemberPlan { desired_name, role_additions }
}

impl MemberPlan {
    /// The writes that take a member currently called `name` to this plan.
    pub fn writes(self, name: &str) -> (writes: MemberWrites)
        ensures
            writes@ == writes_for(self@, name@),
    {
        let current = String::from_str(name);
        let nickname = if self.desired_name == current {
            None
        } else {
            Some(self.desired_name)
        };
        MemberWrites { nickname, roles: self.role_additions }
    }
}

impl MemberWrites {
    /// Whether nothing is to be written.
    pub fn is_empty(&self) -> (empty: bool)
        ensures
            empty == nothing_to_write(self@),
    {
        self.nickname.is_none() && self.roles.len() == 0
    }
}

/// Plans the writes for one member and, where the nickname is to be edited,
/// arms the guard for the member first, so that the platform's report of the
/// edit is not taken for a change made by somebody else.
pub fn handle_member_status(
    member_id: u64,
    name: &str,
    roles: &[u64],
    record: Option<&Claims>,
    mapping: &RoleMapping,
    ignore_set: &mut IgnoreSet,
) -> (writes: MemberWrites)
    ensures
        writes@ == writes_for(
            evaluation(name@, roles@, record_view(record), mapping@),
            name@,
        ),
        writes@.roles.no_duplicates(),
        final(ignore_set)@ == if writes@.nickname is Some {
            with_member(old(ignore_set)@, old(ignore_set).bound() as nat, member_id)
        } else {
            old(ignore_set)@
        },
        final(ignore_set).bound() == old(ignore_set).bound(),
{
    let writes = evaluate_member(name, roles, record, mapping).writes(name);
    if writes.nickname.is_some() {
        ignore_set.insert(member_id);
    }
    writes
}

/// Decides whether an update event for `member_id` is to be processed. An
/// event for a member the guard is armed for is the echo of the engine's own
/// edit: it disarms the guard and is dropped.
pub fn guild_member_update(ignore_set: &mut IgnoreSet, member_id: u64) -> (process: bool)
    ensures
        process == !old(ignore_set)@.contains(member_id),
        final(ignore_set)@ == crate::ignore_set::without_member(old(ignore_set)@, member_id),
        final(ignore_set).bound() == old(ignore_set).bound(),
        !final(ignore_set)@.contains(member_id),
{
    !ignore_set.take(member_id)
}

/// Cleaning a cleaned name changes nothing, and neither does cleaning it
/// after the marker was appended.
pub proof fn lemma_cleaned_is_stable(name: Seq<char>)
    ensures
        cleaned(cleaned(name)) == cleaned(name),
        cleaned(cleaned(name) + marker()) == cleaned(name),
{
    let kept = ascii_only(name);
    let core = cleaned(name);
    lemma_ascii_only(name);
    lemma_trimmed(kept);
    lemma_ascii_only(core);
    lemma_tidy_is_trimmed(core);
    let mark = marker();
    assert(ascii_only(mark) == seq![' ']) by {
        reveal_with_fuel(Seq::filter, 3);
    }
    Seq::filter_distributes_over_add(core, mark, ascii());
    assert(core + seq![' '] == core.push(' '));
    lemma_trailing_blank_is_trimmed(core);
}

/// Looking up two lists laid end to end is looking up the first and then,
/// from what that gave, the second.
pub proof fn lemma_grants_of_joined_lists(
    sofar: Seq<u64>,
    first: Seq<Seq<char>>,
    second: Seq<Seq<char>>,
    mapping: Seq<(Seq<char>, u64)>,
    held: Seq<u64>,
)
    ensures
        grants_onto(sofar, first + second, mapping, held) == grants_onto(
            grants_onto(sofar, first, mapping, held),
            second,
            mapping,
            held,
        ),
    decreases second.len(),
{
    if second.len() > 0 {
        assert((first + second).drop_last() == first + second.drop_last());
        lemma_grants_of_joined_lists(sofar, first, second.drop_last(), mapping, held);
    }
}

/// What looking up a list of tags gives: the roles it started from, in their
/// places, and behind them every role that a tag of the list stands for and
/// the member does not hold. No role comes in twice.
pub proof fn lemma_grants(
    sofar: Seq<u64>,
    tags: Seq<Seq<char>>,
    mapping: Seq<(Seq<char>, u64)>,
    held: Seq<u64>,
)
    ensures
        sofar.no_duplicates() ==> grants_onto(sofar, tags, mapping, held).no_duplicates(),
        forall|role: u64|
            #[trigger] grants_onto(sofar, tags, mapping, held).contains(role) <==> sofar.contains(
                role,
            ) || (!held.contains(role) && exists|i: int|
                0 <= i < tags.len() && role_for(mapping, #[trigger] tags[i]) == Some(role)),
    decreases tags.len(),
{
    let all = grants_onto(sofar, tags, mapping, held);
    if tags.len() > 0 {
        let rest = tags.drop_last();
        let before = grants_onto(sofar, rest, mapping, held);
        lemma_grants(sofar, rest, mapping, held);
        assert forall|role: u64| #[trigger]
            all.contains(role) <==> sofar.contains(role) || (!held.contains(role) && exists|i: int|
                0 <= i < tags.len() && role_for(mapping, #[trigger] tags[i]) == Some(role)) by {
            // a tag that earns the role is the last one or one before it
            if exists|i: int|
                0 <= i < tags.len() && role_for(mapping, #[trigger] tags[i]) == Some(role) {
                let i = choose|i: int|
                    0 <= i < tags.len() && role_for(mapping, #[trigger] tags[i]) == Some(role);
                if i < rest.len() {
                    assert(rest[i] == tags[i]);
                }
            }
            // what was among the roles before stays, and the one new role goes last
            if all != before {
                if before.contains(role) {
                    let k = choose|k: int| 0 <= k < before.len() && before[k] == role;
                    assert(all[k] == role);
                }
                assert(all[before.len() as int] == all.last());
            }
        }
    }
}

/// Nothing is granted for a list of tags whose every role the member holds.
pub proof fn lemma_nothing_left_to_grant(
    sofar: Seq<u64>,
    tags: Seq<Seq<char>>,
    mapping: Seq<(Seq<char>, u64)>,
    held: Seq<u64>,
)
    requires
        forall|i: int|
            0 <= i < tags.len() ==> (role_for(mapping, #[trigger] tags[i]) matches Some(role)
                ==> held.contains(role)),
    ensures
        grants_onto(sofar, tags, mapping, held) == sofar,
    decreases tags.len(),
{
    if tags.len() > 0 {
        let rest = tags.drop_last();
        assert forall|i: int| 0 <= i < rest.len() implies (role_for(
            mapping,
            #[trigger] rest[i],
        ) matches Some(role) ==> held.contains(role)) by {
            assert(rest[i] == tags[i]);
        }
        lemma_nothing_left_to_grant(sofar, rest, mapping, held);
    }
}

/// Reconciliation is idempotent: once the writes of one pass went through, so
/// that the member carries the desired name and holds the added roles beside
/// the old ones, a second pass with the same record and mapping plans no
/// write at all.
pub proof fn lemma_second_pass_writes_nothing(
    name: Seq<char>,
    held: Seq<u64>,
    record: Option<ClaimsTags>,
    mapping: Seq<(Seq<char>, u64)>,
)
    ensures
        ({
            let first = evaluation(name, held, record, mapping);
            let second = evaluation(
                first.desired_name,
                held + first.role_additions,
                record,
                mapping,
            );
            nothing_to_write(writes_for(second, first.desired_name))
        }),
{
    lemma_cleaned_is_stable(name);
    match record {
        Some(record) => {
            let tags = member_tags(record);
            let gained = grants(tags, mapping, held);
            let now = held + gained;
            lemma_grants(Seq::empty(), tags, mapping, held);
            assert forall|i: int| 0 <= i < tags.len() implies (role_for(
                mapping,
                #[trigger] tags[i],
            ) matches Some(role) ==> now.contains(role)) by {
                if role_for(mapping, tags[i]) is Some {
                    let role = role_for(mapping, tags[i])->0;
                    if held.contains(role) {
                        let k = choose|k: int| 0 <= k < held.len() && held[k] == role;
                        assert(now[k] == role);
                    } else {
                        assert(gained.contains(role));
                        let k = choose|k: int| 0 <= k < gained.len() && gained[k] == role;
                        assert(now[held.len() + k] == role);
                    }
                }
            }
            lemma_nothing_left_to_grant(Seq::empty(), tags, mapping, now);
        },
        None => {},
    }
}

/// The roles a member gains are exactly the roles that some tag of the
/// record stands for and the member does not hold, and each of them is
/// gained once.
pub proof fn lemma_gained_roles(
    held: Seq<u64>,
    record: ClaimsTags,
    mapping: Seq<(Seq<char>, u64)>,
    role: u64,
)
    ensures
        desired_roles(held, Some(record), mapping).no_duplicates(),
        desired_roles(held, Some(record), mapping).contains(role) <==> !held.contains(role)
            && exists|i: int|
            0 <= i < member_tags(record).len() && role_for(
                mapping,
                #[trigger] member_tags(record)[i],
            ) == Some(role),
{
    lemma_grants(Seq::empty(), member_tags(record), mapping, held);
}

/// Cleaning changes nothing in a name of ASCII characters that neither
/// starts nor ends with white space.
pub proof fn lemma_clean_name_is_kept(name: Seq<char>)
    requires
        tidy(name),
        all_ascii(name),
    ensures
        cleaned(name) == name,
{
    lemma_ascii_only(name);
    lemma_tidy_is_trimmed(name);
}

/// Without a verification record a member gains no role and keeps the
/// cleaned name, without the marker.
pub proof fn lemma_unverified_member(name: Seq<char>, held: Seq<u64>, mapping: Seq<(Seq<char>, u64)>)
    ensures
        evaluation(name, held, None, mapping).role_additions.len() == 0,
        evaluation(name, held, None, mapping).desired_name == cleaned(name),
        tidy(name) && all_ascii(name) ==> nothing_to_write(
            writes_for(evaluation(name, held, None, mapping), name),
        ),
{
    if tidy(name) && all_ascii(name) {
        lemma_clean_name_is_kept(name);
    }
}

} // verus!
