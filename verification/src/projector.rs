//! The proxy projector: keeps the gateway's configuration files in step
//! with the live proxy rules.

use crate::keys::{key_name, name_of};
use crate::nginx::{reload_step, step_models, FsStep, Nginx, NginxConfKind, StepModel};
use crate::notifier::{Event, EventKind, EventModel};
use crate::proxy::ProxyRule;
use crate::render::{render_rule, rule_text, CargoAddress};
use crate::text::same_text;
use vstd::prelude::*;
use vstd::string::*;

verus! {

/// One configuration file: the name of its rule and its content.
#[derive(Debug, PartialEq, Eq)]
pub struct ConfFile {
    pub name: String,
    pub data: String,
}

/// A live proxy rule: the name of its resource and the rule.
#[derive(Debug)]
pub struct NamedRule {
    pub name: String,
    pub rule: ProxyRule,
}

/// The files of the two directories: for each kind, the content of the file
/// of each rule, by the rule's name.
pub struct ConfModel {
    pub sites: Map<Seq<char>, Seq<char>>,
    pub streams: Map<Seq<char>, Seq<char>>,
}

impl ConfModel {
    /// The directories without a file.
    pub open spec fn empty() -> ConfModel {
        ConfModel { sites: Map::empty(), streams: Map::empty() }
    }

    /// The files of one kind.
    pub open spec fn of(self, kind: NginxConfKind) -> Map<Seq<char>, Seq<char>> {
        match kind {
            NginxConfKind::Site => self.sites,
            NginxConfKind::Stream => self.streams,
        }
    }

    /// The directories after the file of the rule `name` was written.
    pub open spec fn written(self, kind: NginxConfKind, name: Seq<char>, data: Seq<char>) -> ConfModel {
        match kind {
            NginxConfKind::Site => ConfModel { sites: self.sites.insert(name, data), ..self },
            NginxConfKind::Stream => ConfModel { streams: self.streams.insert(name, data), ..self },
        }
    }

    /// The directories after the file of the rule `name` was removed, if it was there.
    pub open spec fn removed(self, kind: NginxConfKind, name: Seq<char>) -> ConfModel {
        match kind {
            NginxConfKind::Site => ConfModel { sites: self.sites.remove(name), ..self },
            NginxConfKind::Stream => ConfModel { streams: self.streams.remove(name), ..self },
        }
    }

    /// The directories after the rule `name` was projected: its file, of the
    /// rule's kind, holds the rule's text, and no file of the other kind has
    /// its name. A rule that is not valid is skipped.
    pub open spec fn placed(self, name: Seq<char>, rule: ProxyRule, addresses: Seq<CargoAddress>) -> ConfModel {
        let kind = NginxConfKind::of_rule(rule);
        if rule.valid() {
            self.written(kind, name, rule_text(rule, addresses)).removed(kind.spec_other(), name)
        } else {
            self
        }
    }

    /// The directories after the rule `name` was withdrawn: no file has its name.
    pub open spec fn withdrawn(self, name: Seq<char>) -> ConfModel {
        self.removed(NginxConfKind::Site, name).removed(NginxConfKind::Stream, name)
    }

    /// The directories after the rules were projected, one after the other.
    pub open spec fn placed_all(self, rules: Seq<NamedRule>, addresses: Seq<CargoAddress>) -> ConfModel
        decreases rules.len(),
    {
        if rules.len() == 0 {
            self
        } else {
            self.placed_all(rules.drop_last(), addresses).placed(
                rules.last().name@,
                rules.last().rule,
                addresses,
            )
        }
    }

    /// The directories after a full resync: what was there is gone, and the
    /// rules are projected from scratch.
    pub open spec fn resynced(self, rules: Seq<NamedRule>, addresses: Seq<CargoAddress>) -> ConfModel {
        ConfModel::empty().placed_all(rules, addresses)
    }
}

/// Whether one of the files has the name.
pub open spec fn holds(files: Seq<ConfFile>, name: Seq<char>) -> bool {
    exists|i: int| 0 <= i < files.len() && (#[trigger] files[i]).name@ == name
}

/// The place of the file with the name.
pub open spec fn place_of(files: Seq<ConfFile>, name: Seq<char>) -> int {
    choose|i: int| 0 <= i < files.len() && (#[trigger] files[i]).name@ == name
}

/// The content of each file, by its name.
pub open spec fn contents(files: Seq<ConfFile>) -> Map<Seq<char>, Seq<char>> {
    Map::new(
        |name: Seq<char>| holds(files, name),
        |name: Seq<char>| files[place_of(files, name)].data@,
    )
}

/// Whether no two files have one name.
pub open spec fn distinct(files: Seq<ConfFile>) -> bool {
    forall|i: int, j: int|
        0 <= i < j < files.len() ==> (#[trigger] files[i]).name@ != (#[trigger] files[j]).name@
}

/// Where the file with the name stands, if it is there.
fn find_file(files: &Vec<ConfFile>, name: &str) -> (found: Option<usize>)
    ensures
        match found {
            Some(i) => i < files@.len() && files@[i as int].name@ == name@ && holds(files@, name@),
            None => !holds(files@, name@),
        },
{
    let mut i: usize = 0;
    while i < files.len()
        invariant
            i <= files@.len(),
            forall|j: int| 0 <= j < i ==> (#[trigger] files@[j]).name@ != name@,
        decreases files@.len() - i,
    {
        if same_text(files[i].name.as_str(), name) {
            return Some(i);
        }
        i += 1;
    }
    None
}

/// Puts the file `name` with the content `data` among the files.
fn put_file(files: &mut Vec<ConfFile>, name: &str, data: String)
    requires
        distinct(old(files)@),
    ensures
        distinct(final(files)@),
        contents(final(files)@) == contents(old(files)@).insert(name@, data@),
{
    let file = ConfFile { name: String::from_str(name), data };
    match find_file(files, name) {
        Some(i) => {
            files.set(i, file);
            proof {
                assert forall|other: Seq<char>| holds(files@, other) == (holds(old(files)@, other)
                    || other == name@) by {
                    if holds(old(files)@, other) {
                        let k = place_of(old(files)@, other);
                        assert(files@[k].name@ == other);
                    }
                }
            }
        },
        None => {
            files.push(file);
            proof {
                let n = old(files)@.len() as int;
                assert forall|other: Seq<char>| holds(files@, other) == (holds(old(files)@, other)
                    || other == name@) by {
                    if holds(old(files)@, other) {
                        let k = place_of(old(files)@, other);
                        assert(files@[k].name@ == other);
                    }
                    if other == name@ {
                        assert(files@[n].name@ == other);
                    }
                }
            }
        },
    }
}

/// Takes the file `name` from the files, if it is there, and says whether it was.
fn drop_file(files: &mut Vec<ConfFile>, name: &str) -> (found: bool)
    requires
        distinct(old(files)@),
    ensures
        distinct(final(files)@),
        found == contents(old(files)@).contains_key(name@),
        contents(final(files)@) == contents(old(files)@).remove(name@),
{
    match find_file(files, name) {
        Some(i) => {
            files.remove(i);
            proof {
                assert forall|other: Seq<char>| holds(files@, other) == (holds(old(files)@, other)
                    && other != name@) by {
                    if holds(old(files)@, other) && other != name@ {
                        let k = place_of(old(files)@, other);
                        let d = if k < i { k } else { k - 1 };
                        assert(files@[d].name@ == other);
                    }
                }
            }
            true
        },
        None => {
            false
        },
    }
}

/// The files that the gateway is meant to have in its two directories.
pub struct ConfTree {
    sites: Vec<ConfFile>,
    streams: Vec<ConfFile>,
}

impl View for ConfTree {
    type V = ConfModel;

    closed spec fn view(&self) -> ConfModel {
        ConfModel { sites: contents(self.sites@), streams: contents(self.streams@) }
    }
}

impl ConfTree {
    /// What holds of every tree between two operations: in each directory,
    /// one file for one name.
    pub closed spec fn wf(&self) -> bool {
        distinct(self.sites@) && distinct(self.streams@)
    }

    /// The directories without a file.
    pub fn new() -> (tree: ConfTree)
        ensures
            tree.wf(),
            tree@ == ConfModel::empty(),
    {
        let tree = ConfTree { sites: Vec::new(), streams: Vec::new() };
        assert(tree@.streams =~= Map::empty());
        tree
    }

    /// Writes the file of the rule `name`.
    pub fn write(&mut self, kind: NginxConfKind, name: &str, data: String)
        requires
            old(self).wf(),
        ensures
            final(self).wf(),
            final(self)@ == old(self)@.written(kind, name@, data@),
    {
        match kind {
            NginxConfKind::Site => put_file(&mut self.sites, name, data),
            NginxConfKind::Stream => put_file(&mut self.streams, name, data),
        }
    }

    /// Removes the file of the rule `name`, and says whether it was there.
    pub fn delete(&mut self, kind: NginxConfKind, name: &str) -> (found: bool)
        requires
            old(self).wf(),
        ensures
            final(self).wf(),
            found == old(self)@.of(kind).contains_key(name@),
            final(self)@ == old(self)@.removed(kind, name@),
    {
        match kind {
            NginxConfKind::Site => drop_file(&mut self.sites, name),
            NginxConfKind::Stream => drop_file(&mut self.streams, name),
        }
    }

    /// Removes every file.
    pub fn clear(&mut self)
        ensures
            final(self).wf(),
            final(self)@ == ConfModel::empty(),
    {
        self.sites.clear();
        self.streams.clear();
        assert(self@.streams =~= Map::empty());
    }

    /// The content of the file of the rule `name`, if the file is there.
    pub fn read(&self, kind: NginxConfKind, name: &str) -> (data: Option<String>)
        requires
            self.wf(),
        ensures
            match data {
                Some(data) => self@.of(kind).contains_key(name@) && self@.of(kind)[name@] == data@,
                None => !self@.of(kind).contains_key(name@),
            },
    {
        let files = match kind {
            NginxConfKind::Site => &self.sites,
            NginxConfKind::Stream => &self.streams,
        };
        match find_file(files, name) {
            Some(i) => {
                Some(files[i].data.clone())
            },
            None => None,
        }
    }
}

/// The steps that project one rule: its file is replaced, and a file of the
/// other kind with its name is removed. A rule that is not valid has no step.
pub open spec fn place_plan(
    nginx: Nginx,
    name: Seq<char>,
    rule: ProxyRule,
    addresses: Seq<CargoAddress>,
) -> Seq<StepModel> {
    let kind = NginxConfKind::of_rule(rule);
    if rule.valid() {
        nginx.write_plan(name, rule_text(rule, addresses), kind).push(
            nginx.delete_step(name, kind.spec_other()),
        )
    } else {
        Seq::empty()
    }
}

/// The steps that project the rules, one after the other.
pub open spec fn place_all_plan(nginx: Nginx, rules: Seq<NamedRule>, addresses: Seq<CargoAddress>) -> Seq<
    StepModel,
>
    decreases rules.len(),
{
    if rules.len() == 0 {
        Seq::empty()
    } else {
        place_all_plan(nginx, rules.drop_last(), addresses) + place_plan(
            nginx,
            rules.last().name@,
            rules.last().rule,
            addresses,
        )
    }
}

/// The steps of a full resync: the two directories are emptied, every rule
/// is projected, and the gateway is told to load its configuration again.
pub open spec fn resync_plan(nginx: Nginx, rules: Seq<NamedRule>, addresses: Seq<CargoAddress>) -> Seq<
    StepModel,
> {
    (nginx.clear_plan() + place_all_plan(nginx, rules, addresses)).push(reload_step())
}

/// The steps that withdraw the rule `name`: its file is removed, of
/// whichever kind it is, and the gateway is told to load its configuration again.
pub open spec fn withdraw_plan(nginx: Nginx, name: Seq<char>) -> Seq<StepModel> {
    seq![
        nginx.delete_step(name, NginxConfKind::Site),
        nginx.delete_step(name, NginxConfKind::Stream),
        reload_step(),
    ]
}

/// The steps that follow a new or changed rule: it is projected, and if
/// that changed a file, the gateway is told to load its configuration again.
pub open spec fn rule_plan(
    nginx: Nginx,
    name: Seq<char>,
    rule: ProxyRule,
    addresses: Seq<CargoAddress>,
) -> Seq<StepModel> {
    if rule.valid() {
        place_plan(nginx, name, rule, addresses).push(reload_step())
    } else {
        Seq::empty()
    }
}

/// The projector: the gateway's configuration root, and the files that the
/// gateway is meant to have.
pub struct Projector {
    nginx: Nginx,
    tree: ConfTree,
}

impl Projector {
    /// The gateway's configuration root.
    pub closed spec fn nginx(&self) -> Nginx {
        self.nginx
    }

    /// The files that the gateway is meant to have.
    pub closed spec fn files(&self) -> ConfModel {
        self.tree@
    }

    /// What holds of every projector between two operations.
    pub closed spec fn wf(&self) -> bool {
        self.tree.wf()
    }

    /// A projector for the gateway rooted at `conf_dir`, with no file yet.
    pub fn new(conf_dir: &str) -> (projector: Projector)
        ensures
            projector.wf(),
            projector.nginx().conf_dir@ == conf_dir@,
            projector.files() == ConfModel::empty(),
    {
        Projector { nginx: Nginx::new(conf_dir), tree: ConfTree::new() }
    }

    /// The files that the gateway is meant to have.
    pub fn tree(&self) -> (tree: &ConfTree)
        ensures
            tree@ == self.files(),
            self.wf() ==> tree.wf(),
    {
        &self.tree
    }

    /// The steps that prepare the configuration root: the directories are
    /// made sure of, and the fallback site is written.
    pub fn setup(&self) -> (steps: Vec<FsStep>)
        ensures
            step_models(steps@) == self.nginx().ensure_plan().push(
                self.nginx().default_conf_step(),
            ),
    {
        let mut steps = self.nginx.ensure();
        steps.push(self.nginx.write_default_conf());
        steps
    }

    /// Adds to `steps` the steps that project one rule, and projects it in the tree.
    fn place(
        &mut self,
        steps: &mut Vec<FsStep>,
        name: &str,
        rule: &ProxyRule,
        addresses: &Vec<CargoAddress>,
    )
        requires
            old(self).wf(),
        ensures
            final(self).wf(),
            final(self).nginx() == old(self).nginx(),
            final(self).files() == old(self).files().placed(name@, *rule, addresses@),
            step_models(final(steps)@) == step_models(old(steps)@) + place_plan(
                old(self).nginx(),
                name@,
                *rule,
                addresses@,
            ),
    {
        if !rule.is_valid() {
            return ;
        }
        let kind = NginxConfKind::from(rule);
        let text = render_rule(rule, addresses);
        let mut written = self.nginx.write_conf_file(name, text.as_str(), &kind);
        let ghost pair = written@;
        assert(step_models(pair).len() == 2);
        let second = written.pop().unwrap();
        let first = written.pop().unwrap();
        let third = self.nginx.delete_conf_file(name, &kind.other());
        steps.push(first);
        steps.push(second);
        steps.push(third);
        self.tree.write(kind, name, text);
        self.tree.delete(kind.other(), name);
    }

    /// Follows a new or changed rule of the resource `name`: the rule is
    /// rendered, its file is replaced in one step, and a file of the other
    /// kind with the same name is removed. Returns the steps that do the same
    /// on disk. A rule that is not valid is skipped: nothing changes, and
    /// there is no step.
    pub fn on_rule(&mut self, name: &str, rule: &ProxyRule, addresses: &Vec<CargoAddress>) -> (steps:
        Vec<FsStep>)
        requires
            old(self).wf(),
        ensures
            final(self).wf(),
            final(self).nginx() == old(self).nginx(),
            final(self).files() == old(self).files().placed(name@, *rule, addresses@),
            step_models(steps@) == rule_plan(old(self).nginx(), name@, *rule, addresses@),
    {
        let mut steps: Vec<FsStep> = Vec::new();
        self.place(&mut steps, name, rule, addresses);
        if steps.len() > 0 {
            steps.push(Nginx::reload());
        }
        steps
    }

    /// Follows the deletion of the resource `name`: its file is removed, of
    /// whichever kind it is. That the file is not there is no failure.
    /// Returns the steps that do the same on disk.
    pub fn on_delete(&mut self, name: &str) -> (steps: Vec<FsStep>)
        requires
            old(self).wf(),
        ensures
            final(self).wf(),
            final(self).nginx() == old(self).nginx(),
            final(self).files() == old(self).files().withdrawn(name@),
            step_models(steps@) == withdraw_plan(old(self).nginx(), name@),
    {
        let mut steps: Vec<FsStep> = Vec::new();
        steps.push(self.nginx.delete_conf_file(name, &NginxConfKind::Site));
        steps.push(self.nginx.delete_conf_file(name, &NginxConfKind::Stream));
        steps.push(Nginx::reload());
        self.tree.delete(NginxConfKind::Site, name);
        self.tree.delete(NginxConfKind::Stream, name);
        steps
    }

    /// A full resync: whatever files there were are dropped, and every rule
    /// is projected from scratch, in the order of `rules`. What the tree
    /// holds afterwards, and the steps returned, depend on the rules and the
    /// addresses alone. Returns the steps that do the same on disk.
    pub fn resync(&mut self, rules: &Vec<NamedRule>, addresses: &Vec<CargoAddress>) -> (steps: Vec<
        FsStep,
    >)
        requires
            old(self).wf(),
        ensures
            final(self).wf(),
            final(self).nginx() == old(self).nginx(),
            final(self).files() == old(self).files().resynced(rules@, addresses@),
            step_models(steps@) == resync_plan(old(self).nginx(), rules@, addresses@),
    {
        let mut steps = self.nginx.clear_conf();
        self.tree.clear();
        let mut i: usize = 0;
        while i < rules.len()
            invariant
                self.wf(),
                self.nginx() == old(self).nginx(),
                i <= rules@.len(),
                self.files() == ConfModel::empty().placed_all(rules@.take(i as int), addresses@),
                step_models(steps@) == self.nginx().clear_plan() + place_all_plan(
                    self.nginx(),
                    rules@.take(i as int),
                    addresses@,
                ),
            decreases rules@.len() - i,
        {
            proof {
                assert(rules@.take(i + 1).drop_last() =~= rules@.take(i as int));
            }
            self.place(&mut steps, rules[i].name.as_str(), &rules[i].rule, addresses);
            i += 1;
        }
        proof {
            assert(rules@.take(i as int) =~= rules@);
        }
        steps.push(Nginx::reload());
        steps
    }
}

/// The files after an event was followed: a deletion withdraws the rule of
/// the entity's name; a creation or an update projects the rule, if the
/// entity's payload is one.
pub open spec fn followed(
    files: ConfModel,
    event: EventModel,
    rule: Option<ProxyRule>,
    addresses: Seq<CargoAddress>,
) -> ConfModel {
    let name = name_of(event.entity_key);
    match event.kind {
        EventKind::Deleted => files.withdrawn(name),
        _ => match rule {
            Some(rule) => files.placed(name, rule, addresses),
            None => files,
        },
    }
}

/// The steps that follow an event: see [`followed`].
pub open spec fn follow_plan(
    nginx: Nginx,
    event: EventModel,
    rule: Option<ProxyRule>,
    addresses: Seq<CargoAddress>,
) -> Seq<StepModel> {
    let name = name_of(event.entity_key);
    match event.kind {
        EventKind::Deleted => withdraw_plan(nginx, name),
        _ => match rule {
            Some(rule) => rule_plan(nginx, name, rule, addresses),
            None => Seq::empty(),
        },
    }
}

impl Projector {
    /// Follows one event of the change notifier. `rule` is the rule that
    /// the entity's payload holds, if it holds one. A deleted entity has its
    /// file removed; a created or updated entity with a rule has the rule
    /// projected; any other event changes nothing. Returns the steps that do
    /// the same on disk.
    pub fn handle(&mut self, event: &Event, rule: Option<&ProxyRule>, addresses: &Vec<CargoAddress>) -> (steps:
        Vec<FsStep>)
        requires
            old(self).wf(),
        ensures
            final(self).wf(),
            final(self).nginx() == old(self).nginx(),
            final(self).files() == followed(
                old(self).files(),
                event@,
                match rule {
                    Some(rule) => Some(*rule),
                    None => None,
                },
                addresses@,
            ),
            step_models(steps@) == follow_plan(
                old(self).nginx(),
                event@,
                match rule {
                    Some(rule) => Some(*rule),
                    None => None,
                },
                addresses@,
            ),
    {
        let name = key_name(event.entity_key.as_str());
        match event.kind {
            EventKind::Deleted => self.on_delete(name.as_str()),
            _ => match rule {
                Some(rule) => self.on_rule(name.as_str(), rule, addresses),
                None => {
                    let steps: Vec<FsStep> = Vec::new();
                    steps
                },
            },
        }
    }
}

/// Whether a resync is under way, and whether another was asked for meanwhile.
#[derive(Debug, Clone, Copy, PartialEq, Eq, Structural)]
pub enum ResyncState {
    /// No resync is under way.
    Idle,
    /// A resync is under way.
    Running,
    /// A resync is under way, and another is to follow it.
    RunningAgain,
}

impl ResyncState {
    /// The state after a resync was asked for.
    pub open spec fn requested(self) -> ResyncState {
        match self {
            ResyncState::Idle => ResyncState::Running,
            _ => ResyncState::RunningAgain,
        }
    }

    /// The state after the resync under way ended.
    pub open spec fn finished(self) -> ResyncState {
        match self {
            ResyncState::RunningAgain => ResyncState::Running,
            _ => ResyncState::Idle,
        }
    }
}

/// The guard that lets one resync run at a time.
#[derive(Debug, PartialEq, Eq)]
pub struct ResyncGuard {
    pub state: ResyncState,
}

impl ResyncGuard {
    /// A guard with no resync under way.
    pub fn new() -> (guard: ResyncGuard)
        ensures
            guard.state == ResyncState::Idle,
    {
        ResyncGuard { state: ResyncState::Idle }
    }

    /// Asks for a resync, and says whether the caller is to run it now. It
    /// is, if none is under way. If one is, the caller is not to run another:
    /// one resync will follow the one under way, however many were asked for.
    pub fn request(&mut self) -> (run: bool)
        ensures
            run == (old(self).state == ResyncState::Idle),
            final(self).state == old(self).state.requested(),
    {
        match self.state {
            ResyncState::Idle => {
                self.state = ResyncState::Running;
                true
            },
            _ => {
                self.state = ResyncState::RunningAgain;
                false
            },
        }
    }

    /// Tells the guard that the resync under way ended, and says whether the
    /// caller is to run another now: it is, if one was asked for meanwhile.
    pub fn finish(&mut self) -> (run: bool)
        ensures
            run == (old(self).state == ResyncState::RunningAgain),
            final(self).state == old(self).state.finished(),
    {
        match self.state {
            ResyncState::RunningAgain => {
                self.state = ResyncState::Running;
                true
            },
            _ => {
                self.state = ResyncState::Idle;
                false
            },
        }
    }
}

/// Resyncs are deterministic: what a full resync leaves does not depend on
/// what was there before, so two resyncs with the same rules and addresses
/// leave the same files with the same content, and a second resync right
/// after the first changes nothing.
pub proof fn law_resync_is_deterministic(
    first: ConfModel,
    second: ConfModel,
    rules: Seq<NamedRule>,
    addresses: Seq<CargoAddress>,
)
    ensures
        first.resynced(rules, addresses) == second.resynced(rules, addresses),
        first.resynced(rules, addresses).resynced(rules, addresses) == first.resynced(
            rules,
            addresses,
        ),
{
}

/// A projected rule has exactly one file: after a valid rule was projected,
/// the file of its kind and name holds its text, no file of the other kind
/// has its name, and every file of another name is as it was.
pub proof fn law_one_file_per_rule(
    files: ConfModel,
    name: Seq<char>,
    rule: ProxyRule,
    addresses: Seq<CargoAddress>,
)
    requires
        rule.valid(),
    ensures
        ({
            let after = files.placed(name, rule, addresses);
            let kind = NginxConfKind::of_rule(rule);
            &&& after.of(kind).contains_key(name)
            &&& after.of(kind)[name] == rule_text(rule, addresses)
            &&& !after.of(kind.spec_other()).contains_key(name)
            &&& forall|other: Seq<char>, any: NginxConfKind|
                other != name ==> (after.of(any).contains_key(other) == files.of(any).contains_key(
                    other,
                ) && (files.of(any).contains_key(other) ==> after.of(any)[other] == files.of(
                    any,
                )[other]))
        }),
{
}

} // verus!
