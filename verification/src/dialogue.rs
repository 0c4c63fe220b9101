use vstd::prelude::*;

use crate::interaction::{Interactable, InteractionEvent};
use crate::npc::{npc_name, NpcId};
use crate::quest::{advance_quest_on_talk, lines_for, npc_lines, text_lines, QuestState, QuestView};
use crate::states::InputLock;

verus! {

/// The dialogue box: who speaks, their lines, and which line is shown.
pub struct DialogueState {
    pub active: bool,
    /// True for exactly one frame after opening, so the key press that
    /// opened the dialogue can't also immediately advance/close it.
    just_opened: bool,
    pub speaker: Option<NpcId>,
    pub lines: Vec<String>,
    pub line_index: usize,
}

/// The abstract dialogue box.
pub struct DialogueView {
    pub active: bool,
    pub just_opened: bool,
    pub speaker: Option<NpcId>,
    pub lines: Seq<Seq<char>>,
    pub line_index: nat,
}

impl View for DialogueState {
    type V = DialogueView;

    closed spec fn view(&self) -> DialogueView {
        DialogueView {
            active: self.active,
            just_opened: self.just_opened,
            speaker: self.speaker,
            lines: text_lines(self.lines@),
            line_index: self.line_index as nat,
        }
    }
}

impl DialogueView {
    /// The closed, empty dialogue box.
    pub open spec fn closed() -> DialogueView {
        DialogueView {
            active: false,
            just_opened: false,
            speaker: None,
            lines: Seq::empty(),
            line_index: 0,
        }
    }

    /// A freshly opened dialogue box showing the first of `lines`.
    pub open spec fn opened(speaker: Option<NpcId>, lines: Seq<Seq<char>>) -> DialogueView {
        DialogueView { active: true, just_opened: true, speaker, lines, line_index: 0 }
    }

    /// The dialogue box and input lock after the player interacted with
    /// `event`: NPCs and signs open the box and lock input; doors and the
    /// gun spot are handled by the scene transitions.
    pub open spec fn interact(self, lock: bool, event: Interactable, quest: QuestView) -> (
        DialogueView,
        bool,
    ) {
        match event {
            Interactable::Npc(id) => (
                DialogueView::opened(Some(id), lines_for(id, quest.stage(id))),
                true,
            ),
            Interactable::Sign(text) => (DialogueView::opened(None, seq![text@]), true),
            _ => (self, lock),
        }
    }

    /// [`DialogueView::interact`] applied to `events` in order.
    pub open spec fn interact_all(
        self,
        lock: bool,
        events: Seq<InteractionEvent>,
        quest: QuestView,
    ) -> (DialogueView, bool)
        decreases events.len(),
    {
        if events.len() == 0 {
            (self, lock)
        } else {
            let (d, l) = self.interact_all(lock, events.drop_last(), quest);
            d.interact(l, events.last().0, quest)
        }
    }

    /// This frame's advance press moves past the last line.
    pub open spec fn closes(self, advance_pressed: bool) -> bool {
        self.active && !self.just_opened && advance_pressed && self.line_index + 1
            >= self.lines.len()
    }

    /// The dialogue box after one frame with the advance key pressed or not.
    pub open spec fn advance(self, advance_pressed: bool) -> DialogueView {
        if !self.active {
            self
        } else if self.just_opened {
            DialogueView { just_opened: false, ..self }
        } else if !advance_pressed {
            self
        } else if self.line_index + 1 >= self.lines.len() {
            DialogueView::closed()
        } else {
            DialogueView { line_index: self.line_index + 1, ..self }
        }
    }

    /// The dialogue box after a frame with an advance press, `n` times.
    pub open spec fn press_n(self, n: nat) -> DialogueView
        decreases n,
    {
        if n == 0 {
            self
        } else {
            self.press_n((n - 1) as nat).advance(true)
        }
    }

    /// The text shown: speaker label and current line, or nothing while
    /// the box is hidden.
    pub open spec fn shown(self) -> Option<(Seq<char>, Seq<char>)> {
        if !self.active {
            None
        } else {
            Some(
                (
                    match self.speaker {
                        Some(s) => npc_name(s),
                        None => Seq::empty(),
                    },
                    if self.line_index < self.lines.len() {
                        self.lines[self.line_index as int]
                    } else {
                        Seq::empty()
                    },
                ),
            )
        }
    }
}

impl Default for DialogueState {
    fn default() -> (r: DialogueState)
        ensures
            r@ == DialogueView::closed(),
    {
        let r = DialogueState {
            active: false,
            just_opened: false,
            speaker: None,
            lines: Vec::new(),
            line_index: 0,
        };
        assert(text_lines(r.lines@) =~= Seq::<Seq<char>>::empty());
        r
    }
}

impl DialogueState {
    /// The box opened this frame (its opening key press is still to be
    /// swallowed).
    pub fn just_opened(&self) -> (r: bool)
        ensures
            r == self@.just_opened,
    {
        self.just_opened
    }

    /// The box is showing.
    pub fn active(&self) -> (r: bool)
        ensures
            r == self@.active,
    {
        self.active
    }

    /// Which line is shown.
    pub fn line_index(&self) -> (r: usize)
        ensures
            r == self@.line_index,
    {
        self.line_index
    }

    /// How many lines the box holds.
    pub fn line_count(&self) -> (r: usize)
        ensures
            r == self@.lines.len(),
    {
        self.lines.len()
    }

    /// Opens the box on the first of `lines`.
    fn open(&mut self, speaker: Option<NpcId>, lines: Vec<String>)
        ensures
            final(self)@ == DialogueView::opened(speaker, text_lines(lines@)),
    {
        self.active = true;
        self.just_opened = true;
        self.speaker = speaker;
        self.lines = lines;
        self.line_index = 0;
    }
}

/// Opens the dialogue box for each NPC or sign the player interacted with
/// (the last one wins) and locks input while it is open.
pub fn handle_interaction_for_dialogue(
    events: &[InteractionEvent],
    quest: &QuestState,
    dialogue: &mut DialogueState,
    input_lock: &mut InputLock,
)
    ensures
        (final(dialogue)@, final(input_lock).0) == old(dialogue)@.interact_all(
            old(input_lock).0,
            events@,
            quest@,
        ),
{
    let mut i: usize = 0;
    while i < events.len()
        invariant
            i <= events@.len(),
            (dialogue@, input_lock.0) == old(dialogue)@.interact_all(
                old(input_lock).0,
                events@.take(i as int),
                quest@,
            ),
        decreases events@.len() - i,
    {
        proof {
            assert(events@.take(i + 1).drop_last() =~= events@.take(i as int));
        }
        match events[i].0 {
            Interactable::Npc(id) => {
                dialogue.open(Some(id), npc_lines(id, quest));
                input_lock.0 = true;
            },
            Interactable::Sign(text) => {
                let mut lines: Vec<String> = Vec::new();
                lines.push(text.to_owned());
                assert(text_lines(lines@) =~= seq![text@]);
                dialogue.open(None, lines);
                input_lock.0 = true;
            },
            Interactable::Door(_) | Interactable::GunHidingSpot => {
                // Handled by the scene transitions.
            },
        }
        i = i + 1;
    }
    assert(events@.take(events@.len() as int) =~= events@);
}

/// One frame of the open dialogue box: the frame it opened is skipped;
/// after that each advance press shows the next line, and a press on the
/// last line closes the box, counts the conversation towards the quest
/// and releases the input lock.
pub fn dialogue_advance_system(
    advance_just_pressed: bool,
    dialogue: &mut DialogueState,
    quest: &mut QuestState,
    input_lock: &mut InputLock,
)
    requires
        old(dialogue)@.active && !old(dialogue)@.just_opened && advance_just_pressed ==> old(
            dialogue,
        )@.line_index < usize::MAX,
    ensures
        final(dialogue)@ == old(dialogue)@.advance(advance_just_pressed),
        final(quest)@ == if old(dialogue)@.closes(advance_just_pressed) && old(
            dialogue,
        )@.speaker is Some {
            old(quest)@.talk(old(dialogue)@.speaker->0)
        } else {
            old(quest)@
        },
        final(input_lock).0 == if old(dialogue)@.closes(advance_just_pressed) {
            false
        } else {
            old(input_lock).0
        },
{
    if !dialogue.active {
        return;
    }
    if dialogue.just_opened {
        dialogue.just_opened = false;
        return;
    }
    if !advance_just_pressed {
        return;
    }
    dialogue.line_index = dialogue.line_index + 1;
    if dialogue.line_index >= dialogue.lines.len() {
        if let Some(speaker) = dialogue.speaker {
            advance_quest_on_talk(quest, speaker);
        }
        dialogue.active = false;
        dialogue.lines.clear();
        dialogue.line_index = 0;
        dialogue.speaker = None;
        input_lock.0 = false;
        assert(text_lines(dialogue.lines@) =~= Seq::<Seq<char>>::empty());
    }
}

/// The texts to show: `None` hides the box; otherwise the speaker label
/// (empty for signs) and the current line.
pub fn dialogue_render_system(dialogue: &DialogueState) -> (r: Option<(String, String)>)
    ensures
        r is None <==> dialogue@.shown() is None,
        r matches Some((speaker, body)) ==> dialogue@.shown() == Some((speaker@, body@)),
{
    if !dialogue.active {
        return None;
    }
    let speaker = match dialogue.speaker {
        Some(s) => s.name().to_owned(),
        None => String::new(),
    };
    let body = if dialogue.line_index < dialogue.lines.len() {
        dialogue.lines[dialogue.line_index].clone()
    } else {
        String::new()
    };
    Some((speaker, body))
}

/// The key press that opened the dialogue can't also advance or close it:
/// the first frame after opening changes nothing but the opening flag,
/// whether or not the key is held.
pub proof fn lemma_opening_press_is_swallowed(
    speaker: Option<NpcId>,
    lines: Seq<Seq<char>>,
    advance_pressed: bool,
)
    ensures
        !DialogueView::opened(speaker, lines).closes(advance_pressed),
        DialogueView::opened(speaker, lines).advance(advance_pressed) == (DialogueView {
            just_opened: false,
            ..DialogueView::opened(speaker, lines)
        }),
{
}

/// After the opening frame, each advance press shows the next line, and
/// the press on the last line closes the box: `k` presses of an `n`-line
/// conversation show line `k` while `k < n`, and `n` presses close it.
pub proof fn lemma_each_press_shows_the_next_line(d: DialogueView, k: nat)
    requires
        d.active,
        !d.just_opened,
        d.line_index == 0,
        d.lines.len() >= 1,
        k <= d.lines.len(),
    ensures
        k < d.lines.len() ==> d.press_n(k) == (DialogueView { line_index: k, ..d }),
        k == d.lines.len() ==> d.press_n(k) == DialogueView::closed(),
    decreases k,
{
    if k > 0 {
        lemma_each_press_shows_the_next_line(d, (k - 1) as nat);
    }
}

/// A closed box ignores key presses: it stays closed, never "closes" again
/// (so it neither counts a conversation nor releases the input lock) and
/// shows nothing.
pub proof fn lemma_closed_box_is_inert(d: DialogueView, advance_pressed: bool)
    requires
        !d.active,
    ensures
        d.advance(advance_pressed) == d,
        !d.closes(advance_pressed),
        d.shown() is None,
{
}

/// What the open box shows: on every line the label is the speaker's name
/// (empty for a sign), and the text is the current line; a closed box
/// shows nothing.
pub proof fn lemma_shown_label_and_line(d: DialogueView)
    ensures
        !d.active ==> d.shown() is None,
        d.active ==> d.shown() is Some,
        d.active && d.speaker is Some ==> (d.shown()->0).0 == npc_name(d.speaker->0),
        d.active && d.speaker is None ==> (d.shown()->0).0 == Seq::<char>::empty(),
        d.active && d.line_index < d.lines.len() ==> (d.shown()->0).1 == d.lines[d.line_index as int],
{
}

/// Reading through a conversation keeps its speaker's label: while the
/// box is open after `k` presses, it shows the speaker's name next to
/// line `k`.
pub proof fn lemma_label_stays_while_reading(d: DialogueView, s: NpcId, k: nat)
    requires
        d.active,
        !d.just_opened,
        d.line_index == 0,
        d.speaker == Some(s),
        k < d.lines.len(),
    ensures
        d.press_n(k).shown() == Some((npc_name(s), d.lines[k as int])),
{
    lemma_each_press_shows_the_next_line(d, k);
}

} // verus!
