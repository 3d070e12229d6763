//! What is known of the program being debugged, and which of it is selected.
use crate::dap::or_zero;
use vstd::arithmetic::div_mod::*;
use vstd::prelude::*;

verus! {

/// A thread, as the debug adapter reports it.
#[derive(Debug, PartialEq)]
pub struct ThreadSummary {
    pub id: i64,
    pub name: String,
}

/// A stack frame, as the debug adapter reports it.
#[derive(Debug, PartialEq)]
pub struct StackFrameSummary {
    pub id: i64,
    pub name: String,
    pub line: i64,
    pub column: i64,
    pub source_path: String,
}

/// A variable, as the debug adapter reports it.
#[derive(Debug, PartialEq)]
pub struct VariableSummary {
    pub name: String,
    pub value: String,
    pub type_label: String,
    pub variables_reference: i64,
}

/// The threads, frames and variables of the program being debugged, with the selection among each.
pub struct DebugState {
    active: bool,
    current_thread_id: Option<i64>,
    threads: Vec<ThreadSummary>,
    selected_thread_idx: usize,
    stack_frames: Vec<StackFrameSummary>,
    selected_frame_idx: usize,
    variables: Vec<VariableSummary>,
    selected_variable_idx: usize,
    variable_path: Vec<String>,
}

// ---------------------------------------------------------------------------------------------
// Models
// ---------------------------------------------------------------------------------------------
pub struct ThreadModel {
    pub id: i64,
    pub name: Seq<char>,
}

pub struct FrameModel {
    pub id: i64,
    pub name: Seq<char>,
    pub line: i64,
    pub column: i64,
    pub source_path: Seq<char>,
}

pub struct VariableModel {
    pub name: Seq<char>,
    pub value: Seq<char>,
    pub type_label: Seq<char>,
    pub variables_reference: i64,
}

pub struct DebugModel {
    pub active: bool,
    pub current_thread_id: Option<i64>,
    pub threads: Seq<ThreadModel>,
    pub selected_thread_idx: usize,
    pub stack_frames: Seq<FrameModel>,
    pub selected_frame_idx: usize,
    pub variables: Seq<VariableModel>,
    pub selected_variable_idx: usize,
    pub variable_path: Seq<Seq<char>>,
}

impl View for ThreadSummary {
    type V = ThreadModel;

    open spec fn view(&self) -> ThreadModel {
        ThreadModel { id: self.id, name: self.name@ }
    }
}

impl View for StackFrameSummary {
    type V = FrameModel;

    open spec fn view(&self) -> FrameModel {
        FrameModel {
            id: self.id,
            name: self.name@,
            line: self.line,
            column: self.column,
            source_path: self.source_path@,
        }
    }
}

impl View for VariableSummary {
    type V = VariableModel;

    open spec fn view(&self) -> VariableModel {
        VariableModel {
            name: self.name@,
            value: self.value@,
            type_label: self.type_label@,
            variables_reference: self.variables_reference,
        }
    }
}

pub open spec fn thread_models(threads: Seq<ThreadSummary>) -> Seq<ThreadModel> {
    threads.map_values(|thread: ThreadSummary| thread@)
}

pub open spec fn frame_models(frames: Seq<StackFrameSummary>) -> Seq<FrameModel> {
    frames.map_values(|frame: StackFrameSummary| frame@)
}

pub open spec fn variable_models(variables: Seq<VariableSummary>) -> Seq<VariableModel> {
    variables.map_values(|variable: VariableSummary| variable@)
}

/// The texts that some strings hold.
pub open spec fn texts_of(strings: Seq<String>) -> Seq<Seq<char>> {
    strings.map_values(|string: String| string@)
}

impl View for DebugState {
    type V = DebugModel;

    closed spec fn view(&self) -> DebugModel {
        DebugModel {
            active: self.active,
            current_thread_id: self.current_thread_id,
            threads: thread_models(self.threads@),
            selected_thread_idx: self.selected_thread_idx,
            stack_frames: frame_models(self.stack_frames@),
            selected_frame_idx: self.selected_frame_idx,
            variables: variable_models(self.variables@),
            selected_variable_idx: self.selected_variable_idx,
            variable_path: texts_of(self.variable_path@),
        }
    }
}

// ---------------------------------------------------------------------------------------------
// Moving a selection
// ---------------------------------------------------------------------------------------------
/// The last index that selects one of `len` entries.
pub open spec fn last_index(len: nat) -> int {
    if len == 0 {
        0
    } else {
        len - 1
    }
}

/// The place `delta` steps from a selection, around the ends. A selection behind the last entry
/// counts as the last entry.
pub open spec fn offset(selected: int, len: nat, delta: int) -> int {
    let current = if selected <= last_index(len) {
        selected
    } else {
        last_index(len)
    };
    (current + delta) % (len as int)
}

/// Moves a selection among `len` entries by `delta` steps, around the ends.
pub fn offset_index(selected: usize, len: usize, delta: isize) -> (index: usize)
    requires
        len > 0,
    ensures
        index == offset(selected as int, len as nat, delta as int),
        index < len,
{
    let current: usize = if selected <= len - 1 {
        selected
    } else {
        len - 1
    };
    let wide: u128 = len as u128;
    if delta >= 0 {
        ((current as u128 + delta as u128) % wide) as usize
    } else {
        let back: u128 = ((-(delta + 1)) as u128 + 1) % wide;
        proof {
            let steps = -(delta as int);
            lemma_sub_mod_noop_right(current as int, steps, len as int);
            lemma_mod_add_multiples_vanish(current - steps % (len as int), len as int);
        }
        ((current as u128 + wide - back) % wide) as usize
    }
}

/// One step forward and one step back, or one step back and one step forward, end where they
/// began.
pub proof fn law_steps_cancel(selected: int, len: nat, delta: int)
    requires
        0 <= selected < len,
    ensures
        offset(offset(selected, len, delta), len, -delta) == selected,
{
    lemma_mod_bound(selected + delta, len as int);
    lemma_add_mod_noop_right(-delta, selected + delta, len as int);
    lemma_small_mod(selected as nat, len);
}

/// As many steps as there are entries end where they began.
pub proof fn law_full_turn(selected: int, len: nat)
    requires
        0 <= selected < len,
    ensures
        offset(selected, len, len as int) == selected,
        offset(selected, len, -(len as int)) == selected,
{
    lemma_mod_add_multiples_vanish(selected, len as int);
    lemma_mod_sub_multiples_vanish(selected, len as int);
    lemma_small_mod(selected as nat, len);
}

// ---------------------------------------------------------------------------------------------
// Choosing among threads
// ---------------------------------------------------------------------------------------------
/// The place of the first thread with an id.
pub open spec fn thread_place(threads: Seq<ThreadModel>, id: i64) -> Option<int>
    decreases threads.len(),
{
    if threads.len() == 0 {
        None
    } else {
        match thread_place(threads.drop_last(), id) {
            Some(place) => Some(place),
            None => if threads.last().id == id {
                Some(threads.len() - 1)
            } else {
                None
            },
        }
    }
}

/// Whether a thread can be asked for its frames: not the thread zero, not the one to leave out,
/// and not the thread one where that is to be spared.
pub open spec fn usable(id: i64, other_than: i64, sparing_one: bool) -> bool {
    id != 0 && id != other_than && !(sparing_one && id == 1)
}

/// The first usable thread.
pub open spec fn first_usable(
    threads: Seq<ThreadModel>,
    other_than: i64,
    sparing_one: bool,
) -> Option<i64>
    decreases threads.len(),
{
    if threads.len() == 0 {
        None
    } else {
        match first_usable(threads.drop_last(), other_than, sparing_one) {
            Some(id) => Some(id),
            None => if usable(threads.last().id, other_than, sparing_one) {
                Some(threads.last().id)
            } else {
                None
            },
        }
    }
}

/// The first usable thread that is not the thread one, else the first usable thread.
pub open spec fn preferred_thread(threads: Seq<ThreadModel>, other_than: i64) -> Option<i64> {
    match first_usable(threads, other_than, true) {
        Some(id) => Some(id),
        None => first_usable(threads, other_than, false),
    }
}

fn find_place(threads: &Vec<ThreadSummary>, id: i64) -> (place: Option<usize>)
    ensures
        match place {
            Some(index) => thread_place(thread_models(threads@), id) == Some(index as int) && index
                < threads@.len(),
            None => thread_place(thread_models(threads@), id) is None,
        },
{
    let mut found: Option<usize> = None;
    let mut i: usize = 0;
    let ghost all = thread_models(threads@);
    assert(all.take(0) =~= Seq::<ThreadModel>::empty());
    while i < threads.len()
        invariant
            i <= threads@.len(),
            all == thread_models(threads@),
            match found {
                Some(index) => thread_place(all.take(i as int), id) == Some(index as int) && index
                    < i,
                None => thread_place(all.take(i as int), id) is None,
            },
        decreases threads@.len() - i,
    {
        assert(all.take(i + 1).drop_last() =~= all.take(i as int));
        assert(all.take(i + 1).last() == threads@[i as int]@);
        if found.is_none() && threads[i].id == id {
            found = Some(i);
        }
        i += 1;
    }
    assert(all.take(i as int) =~= all);
    found
}

fn find_usable(threads: &Vec<ThreadSummary>, other_than: i64, sparing_one: bool) -> (id: Option<i64>)
    ensures
        id == first_usable(thread_models(threads@), other_than, sparing_one),
{
    let mut found: Option<i64> = None;
    let mut i: usize = 0;
    let ghost all = thread_models(threads@);
    assert(all.take(0) =~= Seq::<ThreadModel>::empty());
    while i < threads.len()
        invariant
            i <= threads@.len(),
            all == thread_models(threads@),
            found == first_usable(all.take(i as int), other_than, sparing_one),
        decreases threads@.len() - i,
    {
        assert(all.take(i + 1).drop_last() =~= all.take(i as int));
        assert(all.take(i + 1).last() == threads@[i as int]@);
        let id: i64 = threads[i].id;
        if found.is_none() && id != 0 && id != other_than && !(sparing_one && id == 1) {
            found = Some(id);
        }
        i += 1;
    }
    assert(all.take(i as int) =~= all);
    found
}

/// A place that was found holds the thread, and no place before it does.
pub proof fn law_thread_place(threads: Seq<ThreadModel>, id: i64)
    ensures
        match thread_place(threads, id) {
            Some(place) => 0 <= place < threads.len() && threads[place].id == id && forall|i: int|
                0 <= i < place ==> threads[i].id != id,
            None => forall|i: int| 0 <= i < threads.len() ==> threads[i].id != id,
        },
    decreases threads.len(),
{
    if threads.len() > 0 {
        law_thread_place(threads.drop_last(), id);
        assert(forall|i: int|
            0 <= i < threads.len() - 1 ==> threads[i] == threads.drop_last()[i]);
    }
}

/// A usable thread that was found is the first of the threads that are usable, and one is found
/// where there is one.
pub proof fn law_first_usable(threads: Seq<ThreadModel>, other_than: i64, sparing_one: bool)
    ensures
        match first_usable(threads, other_than, sparing_one) {
            Some(id) => usable(id, other_than, sparing_one) && exists|i: int|
                0 <= i < threads.len() && #[trigger] threads[i].id == id && forall|j: int|
                    0 <= j < i ==> !usable(#[trigger] threads[j].id, other_than, sparing_one),
            None => forall|i: int|
                0 <= i < threads.len() ==> !usable(threads[i].id, other_than, sparing_one),
        },
    decreases threads.len(),
{
    if threads.len() > 0 {
        let earlier = threads.drop_last();
        law_first_usable(earlier, other_than, sparing_one);
        assert(forall|i: int| 0 <= i < earlier.len() ==> threads[i] == earlier[i]);
        match first_usable(earlier, other_than, sparing_one) {
            Some(id) => {
                let i = choose|i: int|
                    0 <= i < earlier.len() && #[trigger] earlier[i].id == id && forall|j: int|
                        0 <= j < i ==> !usable(#[trigger] earlier[j].id, other_than, sparing_one);
                assert(threads[i].id == id);
            },
            None => {
                assert(threads[threads.len() - 1] == threads.last());
            },
        }
    }
}

// ---------------------------------------------------------------------------------------------
// What is known, and how it changes
// ---------------------------------------------------------------------------------------------
/// Whether an index selects one of `len` entries, or the first of none.
pub open spec fn selects(index: usize, len: nat) -> bool {
    index == 0 || index < len
}

impl DebugModel {
    /// Nothing known.
    pub open spec fn blank() -> DebugModel {
        DebugModel {
            active: false,
            current_thread_id: None,
            threads: Seq::empty(),
            selected_thread_idx: 0,
            stack_frames: Seq::empty(),
            selected_frame_idx: 0,
            variables: Seq::empty(),
            selected_variable_idx: 0,
            variable_path: Seq::empty(),
        }
    }

    /// Every selection is among the entries that there are.
    pub open spec fn wf(self) -> bool {
        &&& selects(self.selected_thread_idx, self.threads.len())
        &&& selects(self.selected_frame_idx, self.stack_frames.len())
        &&& selects(self.selected_variable_idx, self.variables.len())
    }

    /// The thread that requests are about; the thread zero where there is none.
    pub open spec fn thread(self) -> i64 {
        or_zero(self.current_thread_id)
    }

    /// There are other threads. The current one is selected where it is among them.
    pub open spec fn threads_listed(self, threads: Seq<ThreadModel>) -> DebugModel {
        DebugModel {
            threads,
            selected_thread_idx: match self.current_thread_id {
                Some(id) => match thread_place(threads, id) {
                    Some(place) => place as usize,
                    None => 0,
                },
                None => 0,
            },
            ..self
        }
    }

    /// The current thread is one of the threads and not the thread zero.
    pub open spec fn thread_known(self) -> bool {
        self.current_thread_id matches Some(id) && id != 0 && thread_place(
            self.threads,
            id,
        ) is Some
    }

    /// A current thread that is not known gives way to the preferred one.
    pub open spec fn thread_resolved(self) -> DebugModel {
        if self.thread_known() {
            self
        } else {
            match preferred_thread(self.threads, 0) {
                Some(id) => DebugModel { current_thread_id: Some(id), ..self },
                None => self,
            }
        }
    }

    /// There are other frames. The first is selected.
    pub open spec fn frames_listed(self, stack_frames: Seq<FrameModel>) -> DebugModel {
        DebugModel { stack_frames, selected_frame_idx: 0, ..self }
    }

    /// The variables shown are those of a scope.
    pub open spec fn scope_entered(self) -> DebugModel {
        DebugModel { variable_path: Seq::empty(), selected_variable_idx: 0, ..self }
    }

    /// There are other variables. A selection behind the last one moves to the last one.
    pub open spec fn variables_listed(self, variables: Seq<VariableModel>) -> DebugModel {
        DebugModel {
            variables,
            selected_variable_idx: if self.selected_variable_idx < variables.len() {
                self.selected_variable_idx
            } else {
                last_index(variables.len()) as usize
            },
            ..self
        }
    }

    /// The thread some steps from the selected one is selected, and becomes the current one.
    pub open spec fn thread_chosen(self, delta: int) -> DebugModel {
        let next = offset(self.selected_thread_idx as int, self.threads.len(), delta);
        DebugModel {
            selected_thread_idx: next as usize,
            current_thread_id: Some(self.threads[next].id),
            ..self
        }
    }

    /// The frame some steps from the selected one is selected.
    pub open spec fn frame_chosen(self, delta: int) -> DebugModel {
        DebugModel {
            selected_frame_idx: offset(
                self.selected_frame_idx as int,
                self.stack_frames.len(),
                delta,
            ) as usize,
            ..self
        }
    }

    /// The variable some steps from the selected one is selected.
    pub open spec fn variable_chosen(self, delta: int) -> DebugModel {
        DebugModel {
            selected_variable_idx: offset(
                self.selected_variable_idx as int,
                self.variables.len(),
                delta,
            ) as usize,
            ..self
        }
    }

    /// The selected variable.
    pub open spec fn selected_variable(self) -> Option<VariableModel> {
        if self.selected_variable_idx < self.variables.len() {
            Some(self.variables[self.selected_variable_idx as int])
        } else {
            None
        }
    }

    /// The variables shown are the parts of the variable with a name.
    pub open spec fn variable_entered(self, name: Seq<char>) -> DebugModel {
        DebugModel {
            variable_path: self.variable_path.push(name),
            selected_variable_idx: 0,
            ..self
        }
    }

    /// The variables shown are those beside the one that was entered last.
    pub open spec fn variable_left(self) -> DebugModel {
        DebugModel {
            variable_path: if self.variable_path.len() > 0 {
                self.variable_path.drop_last()
            } else {
                self.variable_path
            },
            selected_variable_idx: 0,
            ..self
        }
    }
}

impl DebugState {
    /// Nothing known.
    pub fn new() -> (state: DebugState)
        ensures
            state@ == DebugModel::blank(),
    {
        let state = DebugState {
            active: false,
            current_thread_id: None,
            threads: Vec::new(),
            selected_thread_idx: 0,
            stack_frames: Vec::new(),
            selected_frame_idx: 0,
            variables: Vec::new(),
            selected_variable_idx: 0,
            variable_path: Vec::new(),
        };
        assert(state@.threads =~= Seq::<ThreadModel>::empty());
        assert(state@.stack_frames =~= Seq::<FrameModel>::empty());
        assert(state@.variables =~= Seq::<VariableModel>::empty());
        assert(state@.variable_path =~= Seq::<Seq<char>>::empty());
        state
    }

    /// Forgets everything.
    pub fn clear(&mut self)
        ensures
            final(self)@ == DebugModel::blank(),
    {
        self.active = false;
        self.current_thread_id = None;
        self.threads.clear();
        self.selected_thread_idx = 0;
        self.stack_frames.clear();
        self.selected_frame_idx = 0;
        self.variables.clear();
        self.selected_variable_idx = 0;
        self.variable_path.clear();
        assert(self@.threads =~= Seq::<ThreadModel>::empty());
        assert(self@.stack_frames =~= Seq::<FrameModel>::empty());
        assert(self@.variables =~= Seq::<VariableModel>::empty());
        assert(self@.variable_path =~= Seq::<Seq<char>>::empty());
    }

    /// Whether a program is being debugged.
    pub fn is_active(&self) -> (active: bool)
        ensures
            active == self@.active,
    {
        self.active
    }

    /// A program is being debugged.
    pub fn activate(&mut self)
        ensures
            final(self)@ == (DebugModel { active: true, ..old(self)@ }),
    {
        self.active = true;
    }

    /// The current thread.
    pub fn current_thread_id(&self) -> (id: Option<i64>)
        ensures
            id == self@.current_thread_id,
    {
        self.current_thread_id
    }

    pub fn set_current_thread_id(&mut self, id: Option<i64>)
        ensures
            final(self)@ == (DebugModel { current_thread_id: id, ..old(self)@ }),
    {
        self.current_thread_id = id;
    }

    /// The threads.
    pub fn threads(&self) -> (threads: &Vec<ThreadSummary>)
        ensures
            thread_models(threads@) == self@.threads,
    {
        &self.threads
    }

    /// The stack frames of the current thread.
    pub fn stack_frames(&self) -> (frames: &Vec<StackFrameSummary>)
        ensures
            frame_models(frames@) == self@.stack_frames,
    {
        &self.stack_frames
    }

    /// The variables that are shown.
    pub fn variables(&self) -> (variables: &Vec<VariableSummary>)
        ensures
            variable_models(variables@) == self@.variables,
    {
        &self.variables
    }

    /// The names of the variables that were entered.
    pub fn variable_path(&self) -> (path: &Vec<String>)
        ensures
            texts_of(path@) == self@.variable_path,
    {
        &self.variable_path
    }

    pub fn selected_thread_idx(&self) -> (index: usize)
        ensures
            index == self@.selected_thread_idx,
    {
        self.selected_thread_idx
    }

    pub fn selected_frame_idx(&self) -> (index: usize)
        ensures
            index == self@.selected_frame_idx,
    {
        self.selected_frame_idx
    }

    pub fn selected_variable_idx(&self) -> (index: usize)
        ensures
            index == self@.selected_variable_idx,
    {
        self.selected_variable_idx
    }

    /// The thread that requests are about; the thread zero where there is none.
    pub fn thread(&self) -> (id: i64)
        ensures
            id == self@.thread(),
    {
        match self.current_thread_id {
            Some(id) => id,
            None => 0,
        }
    }

    /// The first usable thread that is not the thread one, else the first usable thread.
    pub fn find_preferred_thread(&self, other_than: i64) -> (id: Option<i64>)
        ensures
            id == preferred_thread(self@.threads, other_than),
    {
        match find_usable(&self.threads, other_than, true) {
            Some(id) => Some(id),
            None => find_usable(&self.threads, other_than, false),
        }
    }

    /// Takes over the threads that there are.
    pub fn list_threads(&mut self, threads: Vec<ThreadSummary>)
        ensures
            final(self)@ == old(self)@.threads_listed(thread_models(threads@)),
    {
        self.selected_thread_idx = match self.current_thread_id {
            Some(id) => match find_place(&threads, id) {
                Some(place) => place,
                None => 0,
            },
            None => 0,
        };
        self.threads = threads;
    }

    /// Makes a known thread the current one, where there is one.
    pub fn resolve_thread(&mut self)
        ensures
            final(self)@ == old(self)@.thread_resolved(),
    {
        let known: bool = match self.current_thread_id {
            Some(id) => id != 0 && find_place(&self.threads, id).is_some(),
            None => false,
        };
        if !known {
            if let Some(id) = self.find_preferred_thread(0) {
                self.current_thread_id = Some(id);
            }
        }
    }

    /// Takes over the frames that there are.
    pub fn list_frames(&mut self, frames: Vec<StackFrameSummary>)
        ensures
            final(self)@ == old(self)@.frames_listed(frame_models(frames@)),
    {
        self.stack_frames = frames;
        self.selected_frame_idx = 0;
    }

    /// Goes to the variables of a scope.
    pub fn enter_scope(&mut self)
        ensures
            final(self)@ == old(self)@.scope_entered(),
    {
        self.variable_path.clear();
        self.selected_variable_idx = 0;
        assert(self@.variable_path =~= Seq::<Seq<char>>::empty());
    }

    /// Takes over the variables that there are.
    pub fn list_variables(&mut self, variables: Vec<VariableSummary>)
        ensures
            final(self)@ == old(self)@.variables_listed(variable_models(variables@)),
    {
        if self.selected_variable_idx >= variables.len() {
            self.selected_variable_idx = variables.len().saturating_sub(1);
        }
        self.variables = variables;
    }

    /// Moves the selection among the threads.
    pub fn choose_thread(&mut self, delta: isize)
        requires
            old(self)@.threads.len() > 0,
        ensures
            final(self)@ == old(self)@.thread_chosen(delta as int),
    {
        let next: usize = offset_index(self.selected_thread_idx, self.threads.len(), delta);
        self.selected_thread_idx = next;
        self.current_thread_id = Some(self.threads[next].id);
    }

    /// Moves the selection among the frames.
    pub fn choose_frame(&mut self, delta: isize)
        requires
            old(self)@.stack_frames.len() > 0,
        ensures
            final(self)@ == old(self)@.frame_chosen(delta as int),
            final(self)@.selected_frame_idx < final(self)@.stack_frames.len(),
    {
        self.selected_frame_idx = offset_index(
            self.selected_frame_idx,
            self.stack_frames.len(),
            delta,
        );
    }

    /// Moves the selection among the variables.
    pub fn choose_variable(&mut self, delta: isize)
        requires
            old(self)@.variables.len() > 0,
        ensures
            final(self)@ == old(self)@.variable_chosen(delta as int),
    {
        self.selected_variable_idx = offset_index(
            self.selected_variable_idx,
            self.variables.len(),
            delta,
        );
    }

    /// The selected variable.
    pub fn selected_variable(&self) -> (variable: Option<&VariableSummary>)
        ensures
            match variable {
                Some(entry) => self@.selected_variable() == Some(entry@),
                None => self@.selected_variable() is None,
            },
    {
        if self.selected_variable_idx < self.variables.len() {
            Some(&self.variables[self.selected_variable_idx])
        } else {
            None
        }
    }

    /// Goes to the parts of the variable with a name.
    pub fn enter_variable(&mut self, name: String)
        ensures
            final(self)@ == old(self)@.variable_entered(name@),
    {
        let ghost path = self.variable_path@;
        let ghost text = name@;
        self.variable_path.push(name);
        self.selected_variable_idx = 0;
        assert(texts_of(self.variable_path@) =~= texts_of(path).push(text));
    }

    /// Goes back to the variables beside the one entered last.
    pub fn leave_variable(&mut self)
        ensures
            final(self)@ == old(self)@.variable_left(),
    {
        let ghost path = self.variable_path@;
        let _ = self.variable_path.pop();
        self.selected_variable_idx = 0;
        assert(path.len() > 0 ==> texts_of(self.variable_path@) =~= texts_of(path).drop_last());
    }
}

} // verus!
