//! Turning a request (a selection of actions, maybe a system upgrade) into the
//! ordered list of commands that carries it out.
use vstd::prelude::*;
use crate::command::{command_of, CommandSpec, CommandView};
use crate::commands::{action_commands, commands_for_action, has_gpu, refresh_cmd, views};
use crate::model::{action_at, ActionId, GpuVendor, HostState, PlannerError, SystemInfo, ACTION_COUNT};
use crate::plan::{plan_action_ids, plan_ids, supported_version};
use crate::sets::{ActionSet, GpuVendorSet};

verus! {

/// A request to carry out a selection of actions.
#[derive(Debug)]
pub struct ApplyRequest {
    pub plan_id: uuid::Uuid,
    pub selected_actions: ActionSet,
    pub uninstall_actions: ActionSet,
    pub detected_fedora_version: u16,
    pub detected_gpu_vendors: GpuVendorSet,
    pub target_user: Option<String>,
    pub target_home: Option<String>,
    pub run_update: bool,
}

/// A command together with the action it belongs to.
pub type TaggedView = (ActionId, CommandView);

/// The views of a list of tagged commands.
pub open spec fn tagged_views(s: Seq<(ActionId, CommandSpec)>) -> Seq<TaggedView> {
    s.map_values(|t: (ActionId, CommandSpec)| (t.0, t.1@))
}

/// Each command of `cs`, tagged with `a`.
pub open spec fn tag(a: ActionId, cs: Seq<CommandView>) -> Seq<TaggedView> {
    cs.map_values(|c: CommandView| (a, c))
}

/// The actions that configure package repositories.
pub open spec fn is_repo_action(a: ActionId) -> bool {
    a == ActionId::RpmFusionFree || a == ActionId::RpmFusionNonfree || a == ActionId::CiscoOpenh264Repo
}

/// Whether an action is offered to the system: every action but the system
/// upgrade, the GPU driver actions only where a GPU of that vendor was found.
pub open spec fn offered(a: ActionId, info: SystemInfo) -> bool {
    &&& a != ActionId::SystemUpdate
    &&& a == ActionId::NvidiaDriver ==> has_gpu(info, GpuVendor::Nvidia)
    &&& a == ActionId::AmdAcceleration ==> has_gpu(info, GpuVendor::Amd)
    &&& a == ActionId::IntelAcceleration ==> has_gpu(info, GpuVendor::Intel)
}

/// The first selected action, from position `i` on in declaration order, that
/// the system is not offered.
pub open spec fn first_unavailable(sel: Set<ActionId>, info: SystemInfo, i: int) -> Option<ActionId>
    decreases ACTION_COUNT - i,
{
    if i >= ACTION_COUNT || i < 0 {
        None
    } else if sel.contains(action_at(i)) && !offered(action_at(i), info) {
        Some(action_at(i))
    } else {
        first_unavailable(sel, info, i + 1)
    }
}

/// The commands of an action's result, none for an error.
pub open spec fn ok_commands(r: Result<Seq<CommandView>, PlannerError>) -> Seq<CommandView> {
    match r {
        Ok(cs) => cs,
        Err(_) => Seq::empty(),
    }
}

/// The tagged commands of the selected actions among the first `n` in
/// declaration order.
pub open spec fn selected_commands(
    sel: Set<ActionId>,
    n: int,
    version: u16,
    info: SystemInfo,
    host: HostState,
) -> Seq<TaggedView>
    decreases n,
{
    if n <= 0 {
        Seq::empty()
    } else {
        selected_commands(sel, n - 1, version, info, host) + if sel.contains(action_at(n - 1)) {
            tag(action_at(n - 1), ok_commands(action_commands(action_at(n - 1), version, info, host)))
        } else {
            Seq::empty()
        }
    }
}

/// The position of the last command that belongs to a repository action, or
/// -1 when there is none.
pub open spec fn last_repo_index(s: Seq<TaggedView>) -> int
    decreases s.len(),
{
    if s.len() == 0 {
        -1
    } else if is_repo_action(s.last().0) {
        s.len() - 1
    } else {
        last_repo_index(s.drop_last())
    }
}

/// `s` with the metadata refresh inserted right after the last command of a
/// repository action, tagged like it; `s` itself when no repository changes.
pub open spec fn with_refresh(s: Seq<TaggedView>) -> Seq<TaggedView> {
    let k = last_repo_index(s);
    if k >= 0 {
        s.take(k + 1).push((s[k].0, refresh_cmd())) + s.skip(k + 1)
    } else {
        s
    }
}

/// The command that upgrades the whole system.
pub open spec fn upgrade_cmd() -> CommandView {
    command_of("dnf", seq!["upgrade", "-y", "--refresh"])
}

/// What a request comes to on a system: the first reason why it cannot be
/// carried out, or its commands in order. These are the system upgrade when
/// asked for, then the commands of each selected action in declaration order,
/// with the metadata refresh right after the last repository command.
pub open spec fn request_commands(request: ApplyRequest, info: SystemInfo, host: HostState) -> Result<
    Seq<TaggedView>,
    PlannerError,
> {
    match supported_version(info) {
        Err(e) => Err(e),
        Ok(version) => if !request.run_update && request.detected_fedora_version != version {
            Err(PlannerError::UnsupportedFedora(request.detected_fedora_version))
        } else {
            match first_unavailable(request.selected_actions@, info, 0) {
                Some(a) => Err(PlannerError::UnavailableAction(a)),
                None => Ok(
                    with_refresh(
                        (if request.run_update { seq![(ActionId::SystemUpdate, upgrade_cmd())] } else { seq![] })
                            + selected_commands(request.selected_actions@, ACTION_COUNT as int, version, info, host),
                    ),
                ),
            }
        },
    }
}

/// The plan offers exactly the actions that `offered` describes.
pub proof fn lemma_plan_offers(a: ActionId, info: SystemInfo)
    ensures
        plan_ids(info).contains(a) <==> offered(a, info),
{
    broadcast use vstd::seq_lib::group_seq_properties;
}

/// Every action the system is offered plans without error.
pub proof fn lemma_offered_actions_plan(a: ActionId, version: u16, info: SystemInfo, host: HostState)
    requires
        offered(a, info),
    ensures
        action_commands(a, version, info, host) is Ok,
{
}

/// Where the last repository command of `s + tag(a, cs)` stands.
pub proof fn lemma_last_repo_index_append(s: Seq<TaggedView>, a: ActionId, cs: Seq<CommandView>)
    ensures
        last_repo_index(s + tag(a, cs)) == if cs.len() > 0 && is_repo_action(a) {
            s.len() + cs.len() - 1
        } else {
            last_repo_index(s)
        },
    decreases cs.len(),
{
    if cs.len() > 0 {
        let t = s + tag(a, cs);
        assert(t.last() == (a, cs.last()));
        if !is_repo_action(a) {
            assert(t.drop_last() =~= s + tag(a, cs.drop_last()));
            lemma_last_repo_index_append(s, a, cs.drop_last());
            if cs.len() == 1 {
                assert(cs.drop_last().len() == 0);
            }
        }
    } else {
        assert(s + tag(a, cs) =~= s);
    }
    assert(-1 <= last_repo_index(s) < s.len()) by {
        lemma_last_repo_index_range(s);
    }
}

/// The last repository command is a command of `s`, of a repository action.
pub proof fn lemma_last_repo_index_range(s: Seq<TaggedView>)
    ensures
        -1 <= last_repo_index(s) < s.len(),
        last_repo_index(s) >= 0 ==> is_repo_action(s[last_repo_index(s)].0),
        forall|m: int| last_repo_index(s) < m < s.len() ==> !is_repo_action(#[trigger] s[m].0),
    decreases s.len(),
{
    if s.len() > 0 && !is_repo_action(s.last().0) {
        lemma_last_repo_index_range(s.drop_last());
        assert forall|m: int| last_repo_index(s) < m < s.len() implies !is_repo_action(#[trigger] s[m].0) by {
            if m < s.len() - 1 {
                assert(s[m] == s.drop_last()[m]);
            }
        }
    }
}

/// Whether an action configures package repositories.
fn repo_action(a: ActionId) -> (r: bool)
    ensures
        r == is_repo_action(a),
{
    a == ActionId::RpmFusionFree || a == ActionId::RpmFusionNonfree || a == ActionId::CiscoOpenh264Repo
}

/// Appends the commands of `cs`, each tagged with `a`, to `out`.
fn push_tagged(out: &mut Vec<(ActionId, CommandSpec)>, a: ActionId, cs: Vec<CommandSpec>)
    ensures
        tagged_views(final(out)@) == tagged_views(old(out)@) + tag(a, views(cs@)),
{
    let ghost cs0 = cs@;
    for c in it: cs
        invariant
            it.seq() == cs0,
            tagged_views(out@) == tagged_views(old(out)@) + tag(a, views(cs0.take(it.index() as int))),
    {
        let ghost before = out@;
        out.push((a, c));
        proof {
            assert(cs0.take(it.index() + 1) == cs0.take(it.index() as int).push(c));
            assert(views(cs0.take(it.index() + 1)) =~= views(cs0.take(it.index() as int)).push(c@));
            assert(tagged_views(out@) =~= tagged_views(before).push((a, c@)));
            assert(tag(a, views(cs0.take(it.index() + 1))) =~= tag(a, views(cs0.take(it.index() as int))).push((a, c@)));
        }
    }
    proof {
        assert(cs0.take(cs0.len() as int) == cs0);
    }
}

/// Appends the tagged commands of the selected actions, in declaration order,
/// to `out`; stops at the first selected action that the system is not
/// offered. On success, tells whether a repository command is now in `out`.
fn push_selected_commands(
    out: &mut Vec<(ActionId, CommandSpec)>,
    selected: &ActionSet,
    version: u16,
    info: &SystemInfo,
    host: &HostState,
) -> (r: Result<bool, PlannerError>)
    requires
        last_repo_index(tagged_views(old(out)@)) == -1,
    ensures
        match r {
            Ok(repo_configured) => {
                &&& first_unavailable(selected@, *info, 0) is None
                &&& tagged_views(final(out)@) == tagged_views(old(out)@) + selected_commands(
                    selected@,
                    ACTION_COUNT as int,
                    version,
                    *info,
                    *host,
                )
                &&& repo_configured == (last_repo_index(tagged_views(final(out)@)) >= 0)
            },
            Err(e) => first_unavailable(selected@, *info, 0) matches Some(a) && e == PlannerError::UnavailableAction(a),
        },
{
    let ids = plan_action_ids(info);
    let available = ActionSet::from_slice(ids.as_slice());
    let ghost prefix = tagged_views(out@);
    let ghost sel = selected@;
    let mut repo_configured = false;
    let mut i: usize = 0;
    while i < ACTION_COUNT
        invariant
            i <= ACTION_COUNT,
            sel == selected@,
            prefix == tagged_views(old(out)@),
            last_repo_index(prefix) == -1,
            available@ == plan_ids(*info).to_set(),
            first_unavailable(sel, *info, 0) == first_unavailable(sel, *info, i as int),
            tagged_views(out@) == prefix + selected_commands(sel, i as int, version, *info, *host),
            repo_configured == (last_repo_index(tagged_views(out@)) >= 0),
        decreases ACTION_COUNT - i,
    {
        let action = ActionId::from_index(i);
        let ghost before = tagged_views(out@);
        proof {
            lemma_plan_offers(action, *info);
        }
        if selected.contains(action) {
            if !available.contains(action) {
                proof {
                    assert(!plan_ids(*info).contains(action));
                    assert(first_unavailable(sel, *info, i as int) == Some(action));
                }
                return Err(PlannerError::UnavailableAction(action));
            }
            proof {
                assert(plan_ids(*info).contains(action));
                lemma_offered_actions_plan(action, version, *info, *host);
            }
            let cmds = match commands_for_action(action, version, info, host) {
                Ok(c) => c,
                Err(e) => {
                    return Err(e);
                },
            };
            let ghost cv = views(cmds@);
            if cmds.len() > 0 && repo_action(action) {
                repo_configured = true;
            }
            push_tagged(out, action, cmds);
            proof {
                lemma_last_repo_index_append(before, action, cv);
                lemma_last_repo_index_range(before);
            }
        } else {
            proof {
                assert(selected_commands(sel, i + 1, version, *info, *host) =~= selected_commands(sel, i as int, version, *info, *host));
            }
        }
        proof {
            assert(tagged_views(out@) =~= prefix + selected_commands(sel, i + 1, version, *info, *host));
        }
        i = i + 1;
    }
    proof {
        assert(first_unavailable(sel, *info, ACTION_COUNT as int) is None);
    }
    Ok(repo_configured)
}

/// Inserts the metadata refresh right after the last repository command.
fn insert_refresh(out: &mut Vec<(ActionId, CommandSpec)>, repo_configured: bool)
    requires
        repo_configured == (last_repo_index(tagged_views(old(out)@)) >= 0),
    ensures
        tagged_views(final(out)@) == with_refresh(tagged_views(old(out)@)),
{
    let ghost s = tagged_views(out@);
    proof {
        lemma_last_repo_index_range(s);
    }
    if repo_configured {
        let mut j: usize = out.len();
        let mut found = false;
        let mut k: usize = 0;
        proof {
            assert(s.take(j as int) =~= s);
        }
        while j > 0 && !found
            invariant
                j <= out@.len(),
                s == tagged_views(out@),
                found ==> k < out@.len() && k as int == last_repo_index(s),
                !found ==> last_repo_index(s) == last_repo_index(s.take(j as int)),
            decreases j,
        {
            proof {
                assert(s.take(j as int).drop_last() =~= s.take(j - 1));
            }
            if repo_action(out[j - 1].0) {
                found = true;
                k = j - 1;
            }
            j = j - 1;
        }
        proof {
            if !found {
                assert(s.take(0).len() == 0);
            }
        }
        if found {
            let tag_action = out[k].0;
            let refresh = CommandSpec::new("dnf", &["update", "-y", "--refresh"]);
            out.insert(k + 1, (tag_action, refresh));
            proof {
                assert(tagged_views(out@) =~= s.take(k + 1).push((s[k as int].0, refresh_cmd())) + s.skip(k + 1));
            }
        }
    }
}

/// The commands that carry out `request` on the system described by `info`
/// and `host`, each with the action it belongs to: the system upgrade first
/// when asked for, then the commands of the selected actions in declaration
/// order, with a metadata refresh right after the last repository command.
/// It fails when the system is not supported, when the request was made for
/// another Fedora release (unless it upgrades the system), or with the first
/// selected action that the system is not offered.
pub fn commands_for_request(request: &ApplyRequest, info: &SystemInfo, host: &HostState) -> (r: Result<
    Vec<(ActionId, CommandSpec)>,
    PlannerError,
>)
    ensures
        match r {
            Ok(out) => request_commands(*request, *info, *host) == Ok::<Seq<TaggedView>, PlannerError>(tagged_views(out@)),
            Err(e) => request_commands(*request, *info, *host) == Err::<Seq<TaggedView>, PlannerError>(e),
        },
{
    let version = match info.validate_supported() {
        Ok(v) => v,
        Err(e) => {
            return Err(e);
        },
    };
    if !request.run_update && request.detected_fedora_version != version {
        return Err(PlannerError::UnsupportedFedora(request.detected_fedora_version));
    }
    let mut out: Vec<(ActionId, CommandSpec)> = Vec::new();
    if request.run_update {
        out.push((ActionId::SystemUpdate, CommandSpec::new("dnf", &["upgrade", "-y", "--refresh"])));
    }
    let ghost prefix = tagged_views(out@);
    proof {
        assert(prefix =~= (if request.run_update { seq![(ActionId::SystemUpdate, upgrade_cmd())] } else { seq![] }));
        assert(last_repo_index(prefix) == -1) by {
            if request.run_update {
                assert(prefix.drop_last().len() == 0);
                assert(last_repo_index(prefix.drop_last()) == -1);
            }
        }
    }
    let repo_configured = match push_selected_commands(&mut out, &request.selected_actions, version, info, host) {
        Ok(flag) => flag,
        Err(e) => {
            return Err(e);
        },
    };
    insert_refresh(&mut out, repo_configured);
    Ok(out)
}

/// The first unavailable selection is selected, not offered, and every
/// selected action before it is offered; when there is none, every selected
/// action (from position `i` on) is offered.
pub proof fn lemma_first_unavailable(sel: Set<ActionId>, info: SystemInfo, i: int)
    requires
        0 <= i <= ACTION_COUNT,
    ensures
        match first_unavailable(sel, info, i) {
            Some(a) => {
                &&& sel.contains(a)
                &&& !offered(a, info)
                &&& i <= a.ordinal()
                &&& forall|b: ActionId| #[trigger] sel.contains(b) && i <= b.ordinal() < a.ordinal() ==> offered(b, info)
            },
            None => forall|b: ActionId| #[trigger] sel.contains(b) && i <= b.ordinal() ==> offered(b, info),
        },
    decreases ACTION_COUNT - i,
{
    crate::model::lemma_ordinal_roundtrip(action_at(i), i);
    if i < ACTION_COUNT {
        lemma_first_unavailable(sel, info, i + 1);
        if !(sel.contains(action_at(i)) && !offered(action_at(i), info)) {
            assert forall|b: ActionId| #[trigger] sel.contains(b) && b.ordinal() == i implies offered(b, info) by {
                crate::model::lemma_ordinal_roundtrip(b, i);
            }
        }
    } else {
        assert forall|b: ActionId| #[trigger] sel.contains(b) && i <= b.ordinal() implies offered(b, info) by {
            crate::model::lemma_ordinal_roundtrip(b, i);
        }
    }
}

/// A request is refused for an unavailable action exactly when one of its
/// selected actions is not offered, and then for the first such action.
pub proof fn lemma_refused_selection(request: ApplyRequest, info: SystemInfo, host: HostState)
    requires
        supported_version(info) is Ok,
        request.run_update || request.detected_fedora_version == supported_version(info)->Ok_0,
    ensures
        (request_commands(request, info, host) is Err) <==> exists|a: ActionId|
            #[trigger] request.selected_actions@.contains(a) && !offered(a, info),
        request_commands(request, info, host) matches Err(PlannerError::UnavailableAction(a)) ==> {
            &&& request.selected_actions@.contains(a)
            &&& !offered(a, info)
            &&& forall|b: ActionId| #[trigger] request.selected_actions@.contains(b) && b.ordinal() < a.ordinal()
                ==> offered(b, info)
        },
{
    let sel = request.selected_actions@;
    lemma_first_unavailable(sel, info, 0);
    if exists|a: ActionId| #[trigger] sel.contains(a) && !offered(a, info) {
        let a = choose|a: ActionId| #[trigger] sel.contains(a) && !offered(a, info);
        crate::model::lemma_ordinal_roundtrip(a, 0);
    }
    assert forall|b: ActionId| #[trigger] sel.contains(b) implies 0 <= b.ordinal() by {
        crate::model::lemma_ordinal_roundtrip(b, 0);
    }
}

/// The refresh goes right after the last repository command: everything
/// before it and the command itself stay, it is tagged like that command, no
/// repository command follows it, and taking it out gives the list back.
pub proof fn lemma_refresh_follows_repositories(s: Seq<TaggedView>)
    ensures
        last_repo_index(s) < 0 ==> with_refresh(s) == s,
        last_repo_index(s) >= 0 ==> {
            let k = last_repo_index(s);
            let w = with_refresh(s);
            &&& w.len() == s.len() + 1
            &&& is_repo_action(s[k].0)
            &&& w[k + 1] == (s[k].0, refresh_cmd())
            &&& forall|i: int| 0 <= i <= k ==> #[trigger] w[i] == s[i]
            &&& forall|i: int| k + 1 < i < w.len() ==> #[trigger] w[i] == s[i - 1] && !is_repo_action(w[i].0)
            &&& w.remove(k + 1) == s
        },
{
    lemma_last_repo_index_range(s);
    let k = last_repo_index(s);
    if k >= 0 {
        let w = with_refresh(s);
        assert forall|i: int| k + 1 < i < w.len() implies #[trigger] w[i] == s[i - 1] && !is_repo_action(w[i].0) by {
            assert(w[i] == s.skip(k + 1)[i - k - 2]);
        }
        assert(w.remove(k + 1) =~= s);
    }
}

/// All tagged commands of the selected actions carry a selected action.
proof fn lemma_selected_commands_tags(sel: Set<ActionId>, n: int, version: u16, info: SystemInfo, host: HostState)
    ensures
        forall|i: int| 0 <= i < selected_commands(sel, n, version, info, host).len()
            ==> sel.contains(#[trigger] selected_commands(sel, n, version, info, host)[i].0),
    decreases n,
{
    if n > 0 {
        lemma_selected_commands_tags(sel, n - 1, version, info, host);
        let prev = selected_commands(sel, n - 1, version, info, host);
        let all = selected_commands(sel, n, version, info, host);
        assert forall|i: int| 0 <= i < all.len() implies sel.contains(#[trigger] all[i].0) by {
            if i >= prev.len() {
                assert(all[i] == tag(action_at(n - 1), ok_commands(action_commands(action_at(n - 1), version, info, host)))[i - prev.len()]);
            } else {
                assert(all[i] == prev[i]);
            }
        }
    }
}

/// Whether `cs`, each tagged with `a`, stands in `s` from position `k` on,
/// together and in order.
pub open spec fn stands_at(s: Seq<TaggedView>, k: int, a: ActionId, cs: Seq<CommandView>) -> bool {
    &&& 0 <= k
    &&& k + cs.len() <= s.len()
    &&& forall|i: int| k <= i < k + cs.len() ==> #[trigger] s[i] == (a, cs[i - k])
}

/// The commands of a selected action, among the first `n` in declaration
/// order, stand together and in order in the selected commands.
proof fn lemma_selected_block(sel: Set<ActionId>, n: int, version: u16, info: SystemInfo, host: HostState, a: ActionId)
    requires
        sel.contains(a),
        a.ordinal() < n <= ACTION_COUNT,
    ensures
        exists|k: int|
            #[trigger] stands_at(
                selected_commands(sel, n, version, info, host),
                k,
                a,
                ok_commands(action_commands(a, version, info, host)),
            ),
    decreases n,
{
    crate::model::lemma_ordinal_roundtrip(a, n - 1);
    let prev = selected_commands(sel, n - 1, version, info, host);
    let body = selected_commands(sel, n, version, info, host);
    let cs = ok_commands(action_commands(a, version, info, host));
    if a.ordinal() == n - 1 {
        let k = prev.len() as int;
        assert(action_at(n - 1) == a);
        assert forall|i: int| k <= i < k + cs.len() implies #[trigger] body[i] == (a, cs[i - k]) by {
            assert(body[i] == tag(a, cs)[i - k]);
        }
        assert(stands_at(body, k, a, cs));
    } else {
        lemma_selected_block(sel, n - 1, version, info, host, a);
        let k = choose|k: int| #[trigger] stands_at(prev, k, a, cs);
        assert forall|i: int| k <= i < k + cs.len() implies #[trigger] body[i] == (a, cs[i - k]) by {
            assert(prev[i] == (a, cs[i - k]));
        }
        assert(stands_at(body, k, a, cs));
    }
}

/// Every selected action of a request that is carried out plans without
/// error for the system's release, and all of its commands stand in the
/// result together and in order, each tagged with that action.
pub proof fn lemma_selected_actions_are_carried_out(request: ApplyRequest, info: SystemInfo, host: HostState, a: ActionId)
    requires
        request.selected_actions@.contains(a),
    ensures
        request_commands(request, info, host) matches Ok(out) ==> {
            &&& info.fedora_version is Some
            &&& action_commands(a, info.fedora_version->0, info, host) matches Ok(cs) && exists|k: int|
                #[trigger] stands_at(out, k, a, cs)
        },
{
    if let Ok(out) = request_commands(request, info, host) {
        let version = supported_version(info)->Ok_0;
        let sel = request.selected_actions@;
        crate::model::lemma_ordinal_roundtrip(a, 0);
        lemma_first_unavailable(sel, info, 0);
        assert(offered(a, info));
        lemma_offered_actions_plan(a, version, info, host);
        let cs = action_commands(a, version, info, host)->Ok_0;
        assert(ok_commands(action_commands(a, version, info, host)) == cs);
        let prefix: Seq<TaggedView> = if request.run_update { seq![(ActionId::SystemUpdate, upgrade_cmd())] } else { seq![] };
        let body = selected_commands(sel, ACTION_COUNT as int, version, info, host);
        let s = prefix + body;
        lemma_selected_block(sel, ACTION_COUNT as int, version, info, host, a);
        let kb = choose|k: int| #[trigger] stands_at(body, k, a, cs);
        let ks = kb + prefix.len();
        assert forall|i: int| ks <= i < ks + cs.len() implies #[trigger] s[i] == (a, cs[i - ks]) by {
            assert(body[i - prefix.len()] == (a, cs[i - ks]));
        }
        lemma_refresh_follows_repositories(s);
        lemma_last_repo_index_range(s);
        let w = with_refresh(s);
        assert(out == w);
        let k0 = last_repo_index(s);
        if k0 < 0 || cs.len() == 0 || ks + cs.len() - 1 <= k0 {
            assert forall|i: int| ks <= i < ks + cs.len() implies #[trigger] w[i] == (a, cs[i - ks]) by {
                assert(s[i] == (a, cs[i - ks]));
            }
            assert(stands_at(w, ks, a, cs));
        } else if ks > k0 {
            assert forall|i: int| ks + 1 <= i < ks + 1 + cs.len() implies #[trigger] w[i] == (a, cs[i - (ks + 1)]) by {
                assert(s[i - 1] == (a, cs[i - 1 - ks]));
                assert(w[i] == s[i - 1]);
            }
            assert(stands_at(w, ks + 1, a, cs));
        } else {
            assert(s[k0] == (a, cs[k0 - ks]));
            assert(s[k0 + 1] == (a, cs[k0 + 1 - ks]));
            assert(is_repo_action(s[k0].0));
            assert(!is_repo_action(s[k0 + 1].0));
            assert(false);
        }
    }
}

/// Every planned command belongs to a selected action, or is the system
/// upgrade of a request that asked for it; the upgrade, when asked for, comes
/// first.
pub proof fn lemma_commands_belong_to_request(request: ApplyRequest, info: SystemInfo, host: HostState)
    ensures
        request_commands(request, info, host) matches Ok(out) ==> {
            &&& forall|i: int| 0 <= i < out.len() ==> {
                ||| request.selected_actions@.contains(#[trigger] out[i].0)
                ||| (out[i].0 == ActionId::SystemUpdate && request.run_update)
            }
            &&& request.run_update ==> out.len() > 0 && out[0] == (ActionId::SystemUpdate, upgrade_cmd())
        },
{
    if let Ok(version) = supported_version(info) {
        let sel = request.selected_actions@;
        let prefix: Seq<TaggedView> = if request.run_update { seq![(ActionId::SystemUpdate, upgrade_cmd())] } else { seq![] };
        let body = selected_commands(sel, ACTION_COUNT as int, version, info, host);
        let s = prefix + body;
        lemma_selected_commands_tags(sel, ACTION_COUNT as int, version, info, host);
        lemma_refresh_follows_repositories(s);
        lemma_last_repo_index_range(s);
        let w = with_refresh(s);
        assert forall|i: int| 0 <= i < s.len() implies {
            ||| sel.contains(#[trigger] s[i].0)
            ||| (s[i].0 == ActionId::SystemUpdate && request.run_update)
        } by {
            if i >= prefix.len() {
                assert(s[i] == body[i - prefix.len()]);
            }
        }
        if last_repo_index(s) >= 0 {
            let k = last_repo_index(s);
            assert forall|i: int| 0 <= i < w.len() implies {
                ||| sel.contains(#[trigger] w[i].0)
                ||| (w[i].0 == ActionId::SystemUpdate && request.run_update)
            } by {
                if i <= k {
                    assert(w[i] == s[i]);
                    assert(sel.contains(s[i].0) || (s[i].0 == ActionId::SystemUpdate && request.run_update));
                } else if i == k + 1 {
                    assert(w[i].0 == s[k].0);
                    assert(sel.contains(s[k].0) || (s[k].0 == ActionId::SystemUpdate && request.run_update));
                } else {
                    assert(w[i] == s[i - 1]);
                    assert(sel.contains(s[i - 1].0) || (s[i - 1].0 == ActionId::SystemUpdate && request.run_update));
                }
            }
        }
    }
}

} // verus!
