use vstd::prelude::*;
use bevy::platform::collections::HashSet;
use bevy::platform::hash::FixedHasher;

use crate::npc::NpcId;
use crate::states::AppState;

verus! {

// ---------------------------------------------------------------------
// The engine's hash set, holding who has been talked to
// ---------------------------------------------------------------------

/// `bevy::platform::hash::FixedHasher`, the default hasher of the engine's
/// hash collections.
#[verifier::external_type_specification]
#[verifier::external_body]
pub struct ExFixedHasher(FixedHasher);

/// `bevy::platform::collections::HashSet`, a hash set with a fixed hasher.
#[verifier::external_type_specification]
#[verifier::external_body]
#[verifier::reject_recursive_types(T)]
#[verifier::reject_recursive_types(S)]
pub struct ExHashSet<T, S>(HashSet<T, S>);

/// The NPCs held by an engine hash set. The wrappers below state how
/// `default`, `contains` and `insert` read and change it; they rely on
/// `NpcId`'s derived `Eq` and `Hash`, under which equal means identical.
pub uninterp spec fn npc_set_view(s: HashSet<NpcId>) -> Set<NpcId>;

/// Calls `HashSet::default`, which makes an empty set.
#[verifier::external_body]
fn npc_set_new() -> (s: HashSet<NpcId>)
    ensures
        npc_set_view(s) == Set::<NpcId>::empty(),
{
    HashSet::default()
}

/// Calls `HashSet::contains`: true iff an equal value is in the set.
#[verifier::external_body]
fn npc_set_contains(s: &HashSet<NpcId>, npc: NpcId) -> (r: bool)
    ensures
        r == npc_set_view(*s).contains(npc),
{
    s.contains(&npc)
}

/// Calls `HashSet::insert`: afterwards `npc` is in the set and nothing
/// else changed; returns whether it was absent before.
#[verifier::external_body]
fn npc_set_insert(s: &mut HashSet<NpcId>, npc: NpcId) -> (added: bool)
    ensures
        npc_set_view(*final(s)) == npc_set_view(*old(s)).insert(npc),
        added == !npc_set_view(*old(s)).contains(npc),
{
    s.insert(npc)
}

// ---------------------------------------------------------------------
// Quest progress
// ---------------------------------------------------------------------

/// The order in which the family members give away the next clue.
pub const CLUE_ORDER: [NpcId; 4] = [NpcId::Mom, NpcId::Dad, NpcId::OlderBrother, NpcId::YoungerBrother];

/// Position of `npc` in [`CLUE_ORDER`]; Ben, who is not part of the
/// chain, comes after everyone.
pub open spec fn clue_rank(npc: NpcId) -> nat {
    match npc {
        NpcId::Mom => 0,
        NpcId::Dad => 1,
        NpcId::OlderBrother => 2,
        NpcId::YoungerBrother => 3,
        NpcId::Ben => 4,
    }
}

/// Progress through the clue chain.
pub struct QuestState {
    pub talked_to: HashSet<NpcId>,
    pub current_step: usize,
    pub gun_unlocked: bool,
}

/// The abstract quest progress.
pub struct QuestView {
    /// Everyone whose clue has been collected.
    pub talked: Set<NpcId>,
    /// How many clues have been collected.
    pub step: nat,
    /// The gun's hiding spot can be searched.
    pub gun_unlocked: bool,
}

impl View for QuestState {
    type V = QuestView;

    open spec fn view(&self) -> QuestView {
        QuestView {
            talked: npc_set_view(self.talked_to),
            step: self.current_step as nat,
            gun_unlocked: self.gun_unlocked,
        }
    }
}

/// Where a conversation with an NPC stands in the clue chain.
#[derive(Debug, Clone, Copy, PartialEq, Eq, Structural)]
pub enum Stage {
    /// Not this NPC's turn yet (or never: Ben).
    NotDue,
    /// This NPC gives the next clue.
    Due,
    /// This NPC has already given their clue.
    Done,
}

impl QuestView {
    /// The state of a new game.
    pub open spec fn initial() -> QuestView {
        QuestView { talked: Set::empty(), step: 0, gun_unlocked: false }
    }

    /// Reachable progress: exactly the first `step` NPCs of the chain have
    /// been talked to, and the gun is unlocked once all four have.
    pub open spec fn wf(self) -> bool {
        &&& self.step <= 4
        &&& self.talked == Set::new(|n: NpcId| clue_rank(n) < self.step)
        &&& self.gun_unlocked == (self.step == 4)
    }

    pub open spec fn stage(self, npc: NpcId) -> Stage {
        if self.talked.contains(npc) {
            Stage::Done
        } else if self.step < 4 && CLUE_ORDER@[self.step as int] == npc {
            Stage::Due
        } else {
            Stage::NotDue
        }
    }

    /// The progress after a finished conversation with `npc`.
    pub open spec fn talk(self, npc: NpcId) -> QuestView {
        if self.stage(npc) == Stage::Due {
            QuestView {
                talked: self.talked.insert(npc),
                step: self.step + 1,
                gun_unlocked: self.gun_unlocked || self.step + 1 >= 4,
            }
        } else {
            self
        }
    }

    /// The progress after finished conversations with `npcs`, in order.
    pub open spec fn talk_all(self, npcs: Seq<NpcId>) -> QuestView
        decreases npcs.len(),
    {
        if npcs.len() == 0 {
            self
        } else {
            self.talk_all(npcs.drop_last()).talk(npcs.last())
        }
    }
}

impl Default for QuestState {
    fn default() -> (r: QuestState)
        ensures
            r@ == QuestView::initial(),
    {
        QuestState { talked_to: npc_set_new(), current_step: 0, gun_unlocked: false }
    }
}

/// Where a conversation with `npc` stands, given the quest progress.
pub fn stage_for(npc: NpcId, quest: &QuestState) -> (r: Stage)
    ensures
        r == quest@.stage(npc),
{
    if npc_set_contains(&quest.talked_to, npc) {
        Stage::Done
    } else if quest.current_step < 4 && CLUE_ORDER[quest.current_step] == npc {
        Stage::Due
    } else {
        Stage::NotDue
    }
}

/// The characters of each line.
pub open spec fn text_lines(lines: Seq<String>) -> Seq<Seq<char>> {
    lines.map_values(|s: String| s@)
}

/// What `npc` says at `stage` of the quest.
pub open spec fn lines_for(npc: NpcId, stage: Stage) -> Seq<Seq<char>> {
    match (npc, stage) {
        (NpcId::Mom, Stage::Due) => seq![
            "The \"golden gun\"? Oh, you mean that dollar-store squirt gun Ben's obsessed with."@,
            "Ask his dad — he was helping Ben hide it earlier."@,
        ],
        (NpcId::Mom, Stage::Done) => seq!["Did you find Ben yet? He's been giggling all day."@],
        (NpcId::Mom, Stage::NotDue) => seq!["Hi there! Ben's around here somewhere."@],
        (NpcId::Dad, Stage::Due) => seq![
            "Ha! Yeah, I saw him sneaking around with it."@,
            "I think he roped his older brother into \"guarding\" it. Go ask him."@,
        ],
        (NpcId::Dad, Stage::Done) => seq!["Careful in there. Ben's fast."@],
        (NpcId::Dad, Stage::NotDue) => seq!["Ask around, I'm sure someone knows where Ben hid it."@],
        (NpcId::OlderBrother, Stage::Due) => seq![
            "Ben told me not to say anything..."@,
            "...but he definitely made our younger brother help him hide it. Good luck getting HIM to talk."@,
        ],
        (NpcId::OlderBrother, Stage::Done) => seq!["Don't say I told you anything."@],
        (NpcId::OlderBrother, Stage::NotDue) => seq!["Go away, I'm busy."@],
        (NpcId::YoungerBrother, Stage::Due) => seq![
            "Fine, I'll tell you. It's under his bed."@,
            "But if I were you, I'd watch my back — Ben always finds a way to grab it first."@,
        ],
        (NpcId::YoungerBrother, Stage::Done) => seq!["Good luck. You'll need it."@],
        (NpcId::YoungerBrother, Stage::NotDue) => seq!["What do you want?"@],
        (NpcId::Ben, _) => seq!["Looking for something?"@],
    }
}

/// Two owned lines.
fn two_lines(a: &str, b: &str) -> (r: Vec<String>)
    ensures
        text_lines(r@) == seq![a@, b@],
{
    let r = vec![a.to_owned(), b.to_owned()];
    assert(text_lines(r@) =~= seq![a@, b@]);
    r
}

/// One owned line.
fn one_line(a: &str) -> (r: Vec<String>)
    ensures
        text_lines(r@) == seq![a@],
{
    let r = vec![a.to_owned()];
    assert(text_lines(r@) =~= seq![a@]);
    r
}

/// The dialogue lines to show for talking to `npc` right now, given the
/// current quest progress.
pub fn npc_lines(npc: NpcId, quest: &QuestState) -> (r: Vec<String>)
    ensures
        text_lines(r@) == lines_for(npc, quest@.stage(npc)),
{
    let stage = stage_for(npc, quest);
    match (npc, stage) {
        (NpcId::Mom, Stage::Due) => two_lines(
            "The \"golden gun\"? Oh, you mean that dollar-store squirt gun Ben's obsessed with.",
            "Ask his dad — he was helping Ben hide it earlier.",
        ),
        (NpcId::Mom, Stage::Done) => one_line("Did you find Ben yet? He's been giggling all day."),
        (NpcId::Mom, Stage::NotDue) => one_line("Hi there! Ben's around here somewhere."),
        (NpcId::Dad, Stage::Due) => two_lines(
            "Ha! Yeah, I saw him sneaking around with it.",
            "I think he roped his older brother into \"guarding\" it. Go ask him.",
        ),
        (NpcId::Dad, Stage::Done) => one_line("Careful in there. Ben's fast."),
        (NpcId::Dad, Stage::NotDue) => one_line("Ask around, I'm sure someone knows where Ben hid it."),
        (NpcId::OlderBrother, Stage::Due) => two_lines(
            "Ben told me not to say anything...",
            "...but he definitely made our younger brother help him hide it. Good luck getting HIM to talk.",
        ),
        (NpcId::OlderBrother, Stage::Done) => one_line("Don't say I told you anything."),
        (NpcId::OlderBrother, Stage::NotDue) => one_line("Go away, I'm busy."),
        (NpcId::YoungerBrother, Stage::Due) => two_lines(
            "Fine, I'll tell you. It's under his bed.",
            "But if I were you, I'd watch my back — Ben always finds a way to grab it first.",
        ),
        (NpcId::YoungerBrother, Stage::Done) => one_line("Good luck. You'll need it."),
        (NpcId::YoungerBrother, Stage::NotDue) => one_line("What do you want?"),
        (NpcId::Ben, _) => one_line("Looking for something?"),
    }
}

/// Called when a dialogue with `npc` finishes. Advances the clue chain if
/// this NPC was the one currently "due", and unlocks the gun's hiding spot
/// once every NPC has been talked to.
pub fn advance_quest_on_talk(quest: &mut QuestState, npc: NpcId)
    ensures
        final(quest)@ == old(quest)@.talk(npc),
{
    if stage_for(npc, quest) != Stage::Due {
        return;
    }
    npc_set_insert(&mut quest.talked_to, npc);
    quest.current_step = quest.current_step + 1;
    if quest.current_step >= CLUE_ORDER.len() {
        quest.gun_unlocked = true;
    }
}

/// Once every family member has been talked to, a gun prop that is not
/// interactable yet must become the gun's hiding spot, so it can be found.
pub fn refresh_gun_spot_system(quest: &QuestState, has_interactable: bool) -> (r: bool)
    ensures
        r == (quest@.gun_unlocked && !has_interactable),
{
    quest.gun_unlocked && !has_interactable
}

/// The objective shown in the corner of the screen.
pub open spec fn quest_hint(state: AppState, step: nat) -> Seq<char> {
    match state {
        AppState::Outdoor => "Find Ben's house and go inside."@,
        AppState::HouseInterior => if step == 0 {
            "Ask Ben's Mom about the golden gun."@
        } else if step == 1 {
            "Ask Ben's Dad about the golden gun."@
        } else if step == 2 {
            "Ask Ben's Older Brother about the golden gun."@
        } else if step == 3 {
            "Ask Ben's Younger Brother about the golden gun."@
        } else {
            "You know where it is. Check Ben's room!"@
        },
        AppState::Cutscene | AppState::EndScreen => ""@,
    }
}

/// The objective text for the current scene and quest progress.
pub fn quest_hint_text_system(app_state: AppState, quest: &QuestState) -> (r: &'static str)
    ensures
        r@ == quest_hint(app_state, quest@.step),
{
    match app_state {
        AppState::Outdoor => "Find Ben's house and go inside.",
        AppState::HouseInterior => match quest.current_step {
            0 => "Ask Ben's Mom about the golden gun.",
            1 => "Ask Ben's Dad about the golden gun.",
            2 => "Ask Ben's Older Brother about the golden gun.",
            3 => "Ask Ben's Younger Brother about the golden gun.",
            _ => "You know where it is. Check Ben's room!",
        },
        AppState::Cutscene | AppState::EndScreen => "",
    }
}

// ---------------------------------------------------------------------
// Laws of the clue chain
// ---------------------------------------------------------------------

/// `idx` picks, in increasing order, positions of `b` that spell out `a`.
pub open spec fn is_embedding(idx: Seq<int>, a: Seq<NpcId>, b: Seq<NpcId>) -> bool {
    &&& idx.len() == a.len()
    &&& forall|j: int| 0 <= j < idx.len() ==> 0 <= #[trigger] idx[j] < b.len() && b[idx[j]] == a[j]
    &&& forall|i: int, j: int| 0 <= i < j < idx.len() ==> idx[i] < idx[j]
}

/// `a` occurs in `b` as a (not necessarily contiguous) subsequence.
pub open spec fn is_subsequence(a: Seq<NpcId>, b: Seq<NpcId>) -> bool {
    exists|idx: Seq<int>| is_embedding(idx, a, b)
}

/// The chain position of each member of the chain.
proof fn lemma_clue_rank(i: int)
    requires
        0 <= i < 4,
    ensures
        clue_rank(CLUE_ORDER@[i]) == i,
        forall|n: NpcId| #[trigger] clue_rank(n) == i ==> CLUE_ORDER@[i] == n,
{
}

/// A new game is reachable progress.
pub proof fn lemma_initial_wf()
    ensures
        QuestView::initial().wf(),
{
    assert(QuestView::initial().talked =~= Set::new(|n: NpcId| clue_rank(n) < 0));
}

/// Finishing any conversation keeps the progress reachable: talked-to
/// NPCs are always exactly a prefix of the chain.
pub proof fn lemma_talk_preserves_wf(q: QuestView, npc: NpcId)
    requires
        q.wf(),
    ensures
        q.talk(npc).wf(),
{
    if q.stage(npc) == Stage::Due {
        lemma_clue_rank(q.step as int);
        assert(q.talk(npc).talked =~= Set::new(|n: NpcId| clue_rank(n) < q.step + 1));
    }
}

/// Talking to someone whose turn it is not changes nothing.
pub proof fn lemma_out_of_turn_talk_is_ignored(q: QuestView, npc: NpcId)
    requires
        q.stage(npc) != Stage::Due,
    ensures
        q.talk(npc) == q,
{
}

/// Ben is never part of the clue chain: talking to him changes nothing.
pub proof fn lemma_ben_gives_no_clue(q: QuestView)
    requires
        q.wf(),
    ensures
        q.stage(NpcId::Ben) != Stage::Due,
        q.talk(NpcId::Ben) == q,
{
}

/// A conversation never undoes progress.
pub proof fn lemma_talk_is_monotone(q: QuestView, npc: NpcId)
    ensures
        q.step <= q.talk(npc).step,
        q.talked.subset_of(q.talk(npc).talked),
        q.gun_unlocked ==> q.talk(npc).gun_unlocked,
{
}

/// The gun's hiding spot is unlocked exactly when every member of the
/// chain has been talked to.
pub proof fn lemma_gun_unlocked_iff_chain_complete(q: QuestView)
    requires
        q.wf(),
    ensures
        q.gun_unlocked <==> (forall|i: int| 0 <= i < 4 ==> q.talked.contains(#[trigger] CLUE_ORDER@[i])),
{
    if !q.gun_unlocked {
        lemma_clue_rank(q.step as int);
        assert(!q.talked.contains(CLUE_ORDER@[q.step as int]));
    } else {
        assert forall|i: int| 0 <= i < 4 implies q.talked.contains(#[trigger] CLUE_ORDER@[i]) by {
            lemma_clue_rank(i);
        }
    }
}

/// Talking to the family in chain order, starting from a new game,
/// collects every clue and unlocks the gun.
pub proof fn lemma_following_the_chain_unlocks_the_gun()
    ensures
        QuestView::initial().talk_all(CLUE_ORDER@).step == 4,
        QuestView::initial().talk_all(CLUE_ORDER@).gun_unlocked,
{
    let s = CLUE_ORDER@;
    let q0 = QuestView::initial();
    assert(s.take(0).len() == 0);
    assert(s.take(1).drop_last() =~= s.take(0));
    assert(s.take(2).drop_last() =~= s.take(1));
    assert(s.take(3).drop_last() =~= s.take(2));
    assert(s.take(4).drop_last() =~= s.take(3));
    assert(s.take(4) =~= s);
    assert(q0.talk_all(s.take(0)) == q0);
    assert(s.take(1).last() == s[0]);
    assert(s.take(2).last() == s[1]);
    assert(s.take(3).last() == s[2]);
    assert(s.take(4).last() == s[3]);
    let q1 = q0.talk_all(s.take(1));
    assert(q1 == q0.talk(s[0]));
    assert(q1.step == 1);
    let q2 = q0.talk_all(s.take(2));
    assert(q2 == q1.talk(s[1]));
    assert(q2.step == 2);
    let q3 = q0.talk_all(s.take(3));
    assert(q3 == q2.talk(s[2]));
    assert(q3.step == 3);
    assert(q0.talk_all(s.take(4)) == q3.talk(s[3]));
}

/// Progress reached from a new game is always reachable progress.
pub proof fn lemma_talk_all_wf(npcs: Seq<NpcId>)
    ensures
        QuestView::initial().talk_all(npcs).wf(),
    decreases npcs.len(),
{
    if npcs.len() == 0 {
        lemma_initial_wf();
    } else {
        lemma_talk_all_wf(npcs.drop_last());
        lemma_talk_preserves_wf(QuestView::initial().talk_all(npcs.drop_last()), npcs.last());
    }
}

/// The first `step` clues were collected in chain order: they occur in
/// the conversations as a subsequence.
pub proof fn lemma_progress_follows_the_chain(npcs: Seq<NpcId>)
    ensures
        QuestView::initial().talk_all(npcs).step <= 4,
        is_subsequence(CLUE_ORDER@.take(QuestView::initial().talk_all(npcs).step as int), npcs),
    decreases npcs.len(),
{
    lemma_talk_all_wf(npcs);
    let k = QuestView::initial().talk_all(npcs).step as int;
    if npcs.len() == 0 {
        let idx = Seq::<int>::empty();
        assert(is_embedding(idx, CLUE_ORDER@.take(k), npcs));
    } else {
        let prev = npcs.drop_last();
        lemma_progress_follows_the_chain(prev);
        let q = QuestView::initial().talk_all(prev);
        let k0 = q.step as int;
        let idx0 = choose|idx: Seq<int>| is_embedding(idx, CLUE_ORDER@.take(k0), prev);
        if q.stage(npcs.last()) == Stage::Due {
            let idx = idx0.push(npcs.len() - 1);
            assert(k == k0 + 1);
            assert(is_embedding(idx, CLUE_ORDER@.take(k), npcs));
        } else {
            assert(k == k0);
            assert(is_embedding(idx0, CLUE_ORDER@.take(k), npcs));
        }
    }
}

/// The gun can only be unlocked by talking to Mom, Dad, the older brother
/// and the younger brother in that order (other conversations may come
/// in between).
pub proof fn lemma_unlocking_requires_the_chain_order(npcs: Seq<NpcId>)
    requires
        QuestView::initial().talk_all(npcs).gun_unlocked,
    ensures
        is_subsequence(CLUE_ORDER@, npcs),
{
    lemma_talk_all_wf(npcs);
    lemma_progress_follows_the_chain(npcs);
    assert(CLUE_ORDER@.take(4) =~= CLUE_ORDER@);
}

/// The progress of a conversation sequence is at least the length of any
/// prefix of the chain that occurs in it as a subsequence.
proof fn lemma_chain_prefix_gives_progress(npcs: Seq<NpcId>, k: int)
    requires
        0 <= k <= 4,
        is_subsequence(CLUE_ORDER@.take(k), npcs),
    ensures
        QuestView::initial().talk_all(npcs).step >= k,
    decreases npcs.len(),
{
    if k > 0 {
        let idx = choose|idx: Seq<int>| is_embedding(idx, CLUE_ORDER@.take(k), npcs);
        assert(idx.len() == k);
        let last = idx[k - 1];
        let prev = npcs.drop_last();
        let q = QuestView::initial().talk_all(prev);
        lemma_talk_all_wf(prev);
        if last == npcs.len() - 1 {
            let idx0 = idx.drop_last();
            assert forall|j: int| 0 <= j < idx0.len() implies 0 <= #[trigger] idx0[j] < prev.len()
                && prev[idx0[j]] == CLUE_ORDER@.take(k - 1)[j] by {
                assert(idx[j] < idx[k - 1]);
            }
            assert(is_embedding(idx0, CLUE_ORDER@.take(k - 1), prev));
            lemma_chain_prefix_gives_progress(prev, k - 1);
            if q.step == k - 1 {
                lemma_clue_rank(k - 1);
                assert(npcs.last() == CLUE_ORDER@[k - 1]);
                assert(!q.talked.contains(npcs.last()));
                assert(q.stage(npcs.last()) == Stage::Due);
            }
        } else {
            assert(is_embedding(idx, CLUE_ORDER@.take(k), prev));
            lemma_chain_prefix_gives_progress(prev, k);
        }
    }
}

/// Talking to Mom, Dad, the older brother and the younger brother in that
/// order (with any other conversations in between) always unlocks the
/// gun. Together with [`lemma_unlocking_requires_the_chain_order`]: the
/// gun is unlocked exactly when the chain occurs in the conversations.
pub proof fn lemma_chain_order_unlocks_the_gun(npcs: Seq<NpcId>)
    requires
        is_subsequence(CLUE_ORDER@, npcs),
    ensures
        QuestView::initial().talk_all(npcs).gun_unlocked,
{
    assert(CLUE_ORDER@.take(4) =~= CLUE_ORDER@);
    lemma_chain_prefix_gives_progress(npcs, 4);
    lemma_talk_all_wf(npcs);
}

/// Who is at which stage of the chain: everyone already talked to stays
/// done for good, whatever happened since; of the rest, exactly the one at
/// the current chain position is due (nobody once the chain is complete),
/// and everyone else is not due yet.
pub proof fn lemma_stages(q: QuestView, npc: NpcId)
    ensures
        q.talked.contains(npc) ==> q.stage(npc) == Stage::Done,
        q.stage(npc) == Stage::Done ==> q.talked.contains(npc),
        q.stage(npc) == Stage::Due <==> (!q.talked.contains(npc) && clue_rank(npc) == q.step
            && q.step < 4),
{
}

/// In reachable progress, the family members whose clues were collected
/// are done and keep their follow-up line, the next one in the chain is
/// due, the later ones are not due yet, and Ben is never due.
pub proof fn lemma_stage_by_chain_position(q: QuestView, npc: NpcId)
    requires
        q.wf(),
    ensures
        clue_rank(npc) < q.step ==> q.stage(npc) == Stage::Done,
        clue_rank(npc) < q.step ==> lines_for(npc, q.stage(npc)) == lines_for(npc, Stage::Done),
        clue_rank(npc) == q.step && q.step < 4 ==> q.stage(npc) == Stage::Due,
        clue_rank(npc) > q.step ==> q.stage(npc) == Stage::NotDue,
        npc == NpcId::Ben ==> q.stage(npc) != Stage::Due,
{
    lemma_stages(q, npc);
    assert(q.talked.contains(npc) <==> clue_rank(npc) < q.step);
}

/// The objective hint: outdoors it is always to find Ben's house and
/// inside, during the cutscene and on the end screen there is none,
/// whatever the progress; inside the house it names the family member
/// whose clue is due, and once all clues are collected it points to
/// Ben's room.
pub proof fn lemma_hint_follows_scene_and_chain(step: nat)
    ensures
        quest_hint(AppState::Outdoor, step) == "Find Ben's house and go inside."@,
        quest_hint(AppState::Cutscene, step) == Seq::<char>::empty(),
        quest_hint(AppState::EndScreen, step) == Seq::<char>::empty(),
        step < 4 ==> quest_hint(AppState::HouseInterior, step) == "Ask "@ + crate::npc::npc_name(
            CLUE_ORDER@[step as int],
        ) + " about the golden gun."@,
        step >= 4 ==> quest_hint(AppState::HouseInterior, step)
            == "You know where it is. Check Ben's room!"@,
{
    reveal_strlit("");
    reveal_strlit("Ask ");
    reveal_strlit(" about the golden gun.");
    reveal_strlit("Ben's Mom");
    reveal_strlit("Ben's Dad");
    reveal_strlit("Ben's Older Brother");
    reveal_strlit("Ben's Younger Brother");
    reveal_strlit("Ask Ben's Mom about the golden gun.");
    reveal_strlit("Ask Ben's Dad about the golden gun.");
    reveal_strlit("Ask Ben's Older Brother about the golden gun.");
    reveal_strlit("Ask Ben's Younger Brother about the golden gun.");
    if step < 4 {
        assert(quest_hint(AppState::HouseInterior, step) =~= "Ask "@ + crate::npc::npc_name(
            CLUE_ORDER@[step as int],
        ) + " about the golden gun."@);
    }
}

} // verus!
