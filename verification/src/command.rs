//! Commands with undo and redo, kept in a bounded history.

use vstd::prelude::*;

verus! {

/// What executing, undoing or redoing a command came to.
#[derive(Debug, Clone, PartialEq)]
pub enum CommandResult {
    /// The command was carried out.
    Success,
    /// The command was cancelled.
    Cancelled,
    /// The command failed, with a reason.
    Failed(String),
}

/// An editing operation on a scene of type `S` that can be undone.
///
/// Implementors decide what the operation does, and may say so in the spec
/// functions `executes`, `undoes`, `executed_into` and `undone_into`; the
/// history runs the command itself and files it by whether it reports
/// `Success`. Their defaults are `true`: a command that keeps them promises
/// nothing about the scene, its report or its own state afterwards, and what
/// the history states of such commands is then only what holds for every
/// outcome.
pub trait Command<S> {
    /// What carrying the command out on `scene0` may come to: the scene
    /// left as `scene1` and the report `r`. An implementor says here what
    /// its command does; the default promises nothing.
    open spec fn executes(&self, scene0: &S, scene1: &S, r: CommandResult) -> bool {
        true
    }

    /// What reverting the command on `scene0` may come to, in the same
    /// terms; the default promises nothing.
    open spec fn undoes(&self, scene0: &S, scene1: &S, r: CommandResult) -> bool {
        true
    }

    /// Whether carrying the command out may leave it as `after`; the
    /// default promises nothing.
    open spec fn executed_into(&self, after: &Self) -> bool {
        true
    }

    /// Whether reverting the command may leave it as `after`; the default
    /// promises nothing.
    open spec fn undone_into(&self, after: &Self) -> bool {
        true
    }

    /// Carries the command out on the scene.
    fn execute(&mut self, scene: &mut S) -> (r: CommandResult)
        ensures
            old(self).executes(&*old(scene), &*final(scene), r),
            old(self).executed_into(&*final(self)),
    ;

    /// Reverts what `execute` did.
    fn undo(&mut self, scene: &mut S) -> (r: CommandResult)
        ensures
            old(self).undoes(&*old(scene), &*final(scene), r),
            old(self).undone_into(&*final(self)),
    ;

    /// A short description of the command.
    fn label(&self) -> &str;

    /// Whether this command can be merged with another one; by default never.
    fn can_merge_with(&self, other: &Self) -> (r: bool) where Self: Sized
        default_ensures
            !r,
    {
        false
    }
}

/// A command given by two functions on the scene: one carries it out, the
/// other reverts it.
pub struct BasicCommand<S, F> where F: Fn(&mut S) -> CommandResult {
    execute_fn: F,
    undo_fn: F,
    label: String,
    scene: core::marker::PhantomData<S>,
}

impl<S, F> BasicCommand<S, F> where F: Fn(&mut S) -> CommandResult {
    /// Both functions accept every scene.
    #[verifier::type_invariant]
    closed spec fn accepts_every_scene(&self) -> bool {
        &&& forall|a: &mut S| #[trigger] call_requires(self.execute_fn, (a,))
        &&& forall|a: &mut S| #[trigger] call_requires(self.undo_fn, (a,))
    }

    /// The function that carries the command out.
    pub closed spec fn execute_spec(&self) -> F {
        self.execute_fn
    }

    /// The function that reverts the command.
    pub closed spec fn undo_spec(&self) -> F {
        self.undo_fn
    }

    /// The command's description.
    pub closed spec fn label_spec(&self) -> Seq<char> {
        self.label@
    }

    /// A command from its two functions and its description.
    pub fn new(execute_fn: F, undo_fn: F, label: &str) -> (c: Self)
        requires
            forall|a: &mut S| #[trigger] call_requires(execute_fn, (a,)),
            forall|a: &mut S| #[trigger] call_requires(undo_fn, (a,)),
        ensures
            c.execute_spec() == execute_fn,
            c.undo_spec() == undo_fn,
            c.label_spec() == label@,
    {
        BasicCommand { execute_fn, undo_fn, label: label.to_string(), scene: core::marker::PhantomData }
    }
}

impl<S, F> Command<S> for BasicCommand<S, F> where F: Fn(&mut S) -> CommandResult {
    /// Running it leaves the command as it was.
    open spec fn executed_into(&self, after: &Self) -> bool {
        *after == *self
    }

    /// Reverting it leaves the command as it was.
    open spec fn undone_into(&self, after: &Self) -> bool {
        *after == *self
    }

    /// Calls the execute function on the scene and reports what it returns.
    fn execute(&mut self, scene: &mut S) -> (r: CommandResult)
        ensures
            exists|a: &mut S|
                *a == *old(scene) && *final(a) == *final(scene) && call_ensures(
                    old(self).execute_spec(),
                    (a,),
                    r,
                ),
    {
        proof {
            use_type_invariant(&*self);
        }
        (self.execute_fn)(scene)
    }

    /// Calls the undo function on the scene and reports what it returns.
    fn undo(&mut self, scene: &mut S) -> (r: CommandResult)
        ensures
            exists|a: &mut S|
                *a == *old(scene) && *final(a) == *final(scene) && call_ensures(
                    old(self).undo_spec(),
                    (a,),
                    r,
                ),
    {
        proof {
            use_type_invariant(&*self);
        }
        (self.undo_fn)(scene)
    }

    fn label(&self) -> (l: &str)
        ensures
            l@ == self.label_spec(),
    {
        self.label.as_str()
    }
}

/// The number of commands the history keeps by default.
pub const DEFAULT_MAX_HISTORY: usize = 100;

/// `s` with one more element than the history may hold loses its oldest.
pub open spec fn trim_oldest<C>(s: Seq<C>, max: nat) -> Seq<C> {
    if s.len() > max {
        s.drop_first()
    } else {
        s
    }
}

/// The history after a successful `execute` of a command that ended up as
/// `done`: it goes on top of the undo stack, the oldest entry leaves when
/// the stack would outgrow `max`, and the redo stack is emptied.
pub open spec fn executed<C>(undo0: Seq<C>, max: nat, done: C, undo1: Seq<C>, redo1: Seq<C>) -> bool {
    &&& undo1 == trim_oldest(undo0.push(done), max)
    &&& redo1 == Seq::<C>::empty()
}

/// A command moved from the top of `from0` to the top of `to0`, in the
/// state `moved` that its undo or redo left it in.
pub open spec fn moved_top<C>(from0: Seq<C>, to0: Seq<C>, moved: C, from1: Seq<C>, to1: Seq<C>) -> bool {
    &&& from0.len() > 0
    &&& from1 == from0.drop_last()
    &&& to1 == to0.push(moved)
}

/// The command on top of `from0` was taken off and dropped, `to` unchanged.
pub open spec fn dropped_top<C>(from0: Seq<C>, to0: Seq<C>, from1: Seq<C>, to1: Seq<C>) -> bool {
    &&& from0.len() > 0
    &&& from1 == from0.drop_last()
    &&& to1 == to0
}

/// `r` is a failure whose message is `msg`.
pub open spec fn failed_with(r: CommandResult, msg: Seq<char>) -> bool {
    r matches CommandResult::Failed(m) && m@ == msg
}

/// The history of executed and undone commands.
pub struct CommandStack<C> {
    undo_stack: Vec<C>,
    redo_stack: Vec<C>,
    max_size: usize,
}

impl<C> CommandStack<C> {
    /// Commands that can be undone, oldest first.
    pub closed spec fn undo_seq(&self) -> Seq<C> {
        self.undo_stack@
    }

    /// Commands that can be redone, the next one to redo last.
    pub closed spec fn redo_seq(&self) -> Seq<C> {
        self.redo_stack@
    }

    /// The most commands the history holds.
    pub closed spec fn max_history(&self) -> nat {
        self.max_size as nat
    }

    /// The bound is `DEFAULT_MAX_HISTORY`, and both stacks together never
    /// hold more commands than it. Every history keeps this: `undo_len` and
    /// `redo_len` state it of any history they are asked about.
    pub open spec fn wf(&self) -> bool {
        &&& self.max_history() == DEFAULT_MAX_HISTORY
        &&& self.undo_seq().len() + self.redo_seq().len() <= self.max_history()
    }

    #[verifier::type_invariant]
    closed spec fn within_bound(&self) -> bool {
        &&& self.max_size == DEFAULT_MAX_HISTORY
        &&& self.undo_stack@.len() + self.redo_stack@.len() <= self.max_size
    }

    /// An empty history that keeps up to 100 commands.
    pub fn new() -> (s: Self)
        ensures
            s.wf(),
            s.undo_seq() == Seq::<C>::empty(),
            s.redo_seq() == Seq::<C>::empty(),
            s.max_history() == DEFAULT_MAX_HISTORY,
    {
        CommandStack { undo_stack: Vec::new(), redo_stack: Vec::new(), max_size: DEFAULT_MAX_HISTORY }
    }

    /// Executes `command` on `scene`; on success it becomes undoable and
    /// everything that could be redone is forgotten. On any other result the
    /// command is dropped and the history is unchanged.
    pub fn execute<S>(&mut self, command: C, scene: &mut S) -> (result: CommandResult) where
        C: Command<S>,
        ensures
            final(self).max_history() == old(self).max_history(),
            command.executes(&*old(scene), &*final(scene), result),
            result is Success ==> command.executed_into(&final(self).undo_seq().last()),
            result is Success ==> final(self).undo_seq().len() > 0 && executed(
                old(self).undo_seq(),
                old(self).max_history(),
                final(self).undo_seq().last(),
                final(self).undo_seq(),
                final(self).redo_seq(),
            ),
            !(result is Success) ==> final(self).undo_seq() == old(self).undo_seq()
                && final(self).redo_seq() == old(self).redo_seq(),
    {
        let mut command = command;
        let result = command.execute(scene);
        self.record_execution(command, result)
    }

    /// Files a command that has already been executed with the given
    /// `result` and hands the result back: after `Success` the command goes
    /// on top of the undo stack (the oldest entry leaving when the history
    /// would outgrow its bound) and the redo stack is emptied; after any
    /// other result the command is dropped and the history is unchanged.
    pub fn record_execution(&mut self, command: C, result: CommandResult) -> (r: CommandResult)
        ensures
            r == result,
            final(self).max_history() == old(self).max_history(),
            result is Success ==> final(self).undo_seq().len() > 0 && final(self).undo_seq().last() == command,
            result is Success ==> executed(
                old(self).undo_seq(),
                old(self).max_history(),
                command,
                final(self).undo_seq(),
                final(self).redo_seq(),
            ),
            !(result is Success) ==> final(self).undo_seq() == old(self).undo_seq()
                && final(self).redo_seq() == old(self).redo_seq(),
    {
        proof {
            use_type_invariant(&*self);
        }
        if let CommandResult::Success = result {
            let mut undo: Vec<C> = Vec::new();
            std::mem::swap(&mut undo, &mut self.undo_stack);
            let ghost undo0 = undo@;
            let ghost done = command;
            undo.push(command);
            if undo.len() > self.max_size {
                undo.remove(0);
                assert(undo@ =~= undo0.push(done).drop_first());
            }
            self.redo_stack = Vec::new();
            self.undo_stack = undo;
        }
        result
    }

    /// Undoes the most recent command. When it undoes successfully it can be
    /// redone; otherwise it is dropped. With nothing to undo the result is
    /// `Failed("Nothing to undo")`, the scene is untouched and the history
    /// is unchanged.
    pub fn undo<S>(&mut self, scene: &mut S) -> (result: CommandResult) where C: Command<S>,
        ensures
            final(self).max_history() == old(self).max_history(),
            old(self).undo_seq().len() == 0 ==> failed_with(result, "Nothing to undo"@)
                && final(self).undo_seq() == old(self).undo_seq()
                && final(self).redo_seq() == old(self).redo_seq()
                && *final(scene) == *old(scene),
            old(self).undo_seq().len() > 0 ==> old(self).undo_seq().last().undoes(
                &*old(scene),
                &*final(scene),
                result,
            ),
            old(self).undo_seq().len() > 0 && result is Success ==> old(self).undo_seq().last().undone_into(
                &final(self).redo_seq().last(),
            ),
            old(self).undo_seq().len() > 0 && result is Success ==> final(self).redo_seq().len() > 0
                && moved_top(
                old(self).undo_seq(),
                old(self).redo_seq(),
                final(self).redo_seq().last(),
                final(self).undo_seq(),
                final(self).redo_seq(),
            ),
            old(self).undo_seq().len() > 0 && !(result is Success) ==> dropped_top(
                old(self).undo_seq(),
                old(self).redo_seq(),
                final(self).undo_seq(),
                final(self).redo_seq(),
            ),
    {
        proof {
            use_type_invariant(&*self);
        }
        let mut undo: Vec<C> = Vec::new();
        std::mem::swap(&mut undo, &mut self.undo_stack);
        let top = undo.pop();
        self.undo_stack = undo;
        match top {
            Some(command) => {
                let mut command = command;
                let result = command.undo(scene);
                self.record_undo(command, result)
            },
            None => {
                let msg = "Nothing to undo";
                proof {
                    reveal_strlit("Nothing to undo");
                }
                CommandResult::Failed(msg.to_string())
            },
        }
    }

    /// Files a command that was taken off the undo stack and undone with the
    /// given `result`, and hands the result back: after `Success` it goes on
    /// top of the redo stack; after any other result it is dropped. The undo
    /// stack is left as it is.
    pub fn record_undo(&mut self, command: C, result: CommandResult) -> (r: CommandResult)
        requires
            old(self).undo_seq().len() + old(self).redo_seq().len() < old(self).max_history(),
        ensures
            r == result,
            final(self).max_history() == old(self).max_history(),
            final(self).undo_seq() == old(self).undo_seq(),
            result is Success ==> final(self).redo_seq() == old(self).redo_seq().push(command),
            !(result is Success) ==> final(self).redo_seq() == old(self).redo_seq(),
    {
        proof {
            use_type_invariant(&*self);
        }
        if let CommandResult::Success = result {
            let mut redo: Vec<C> = Vec::new();
            std::mem::swap(&mut redo, &mut self.redo_stack);
            redo.push(command);
            self.redo_stack = redo;
        }
        result
    }

    /// Redoes the most recently undone command. When it executes
    /// successfully it can be undone again; otherwise it is dropped. With
    /// nothing to redo the result is `Failed("Nothing to redo")`, the scene
    /// is untouched and the history is unchanged.
    pub fn redo<S>(&mut self, scene: &mut S) -> (result: CommandResult) where C: Command<S>,
        ensures
            final(self).max_history() == old(self).max_history(),
            old(self).redo_seq().len() == 0 ==> failed_with(result, "Nothing to redo"@)
                && final(self).undo_seq() == old(self).undo_seq()
                && final(self).redo_seq() == old(self).redo_seq()
                && *final(scene) == *old(scene),
            old(self).redo_seq().len() > 0 ==> old(self).redo_seq().last().executes(
                &*old(scene),
                &*final(scene),
                result,
            ),
            old(self).redo_seq().len() > 0 && result is Success ==> old(self).redo_seq().last().executed_into(
                &final(self).undo_seq().last(),
            ),
            old(self).redo_seq().len() > 0 && result is Success ==> final(self).undo_seq().len() > 0
                && moved_top(
                old(self).redo_seq(),
                old(self).undo_seq(),
                final(self).undo_seq().last(),
                final(self).redo_seq(),
                final(self).undo_seq(),
            ),
            old(self).redo_seq().len() > 0 && !(result is Success) ==> dropped_top(
                old(self).redo_seq(),
                old(self).undo_seq(),
                final(self).redo_seq(),
                final(self).undo_seq(),
            ),
    {
        proof {
            use_type_invariant(&*self);
        }
        let mut redo: Vec<C> = Vec::new();
        std::mem::swap(&mut redo, &mut self.redo_stack);
        let top = redo.pop();
        self.redo_stack = redo;
        match top {
            Some(command) => {
                let mut command = command;
                let result = command.execute(scene);
                self.record_redo(command, result)
            },
            None => {
                let msg = "Nothing to redo";
                proof {
                    reveal_strlit("Nothing to redo");
                }
                CommandResult::Failed(msg.to_string())
            },
        }
    }

    /// Files a command that was taken off the redo stack and executed again
    /// with the given `result`, and hands the result back: after `Success`
    /// it goes on top of the undo stack; after any other result it is
    /// dropped. The redo stack is left as it is.
    pub fn record_redo(&mut self, command: C, result: CommandResult) -> (r: CommandResult)
        requires
            old(self).undo_seq().len() + old(self).redo_seq().len() < old(self).max_history(),
        ensures
            r == result,
            final(self).max_history() == old(self).max_history(),
            final(self).redo_seq() == old(self).redo_seq(),
            result is Success ==> final(self).undo_seq() == old(self).undo_seq().push(command),
            !(result is Success) ==> final(self).undo_seq() == old(self).undo_seq(),
    {
        proof {
            use_type_invariant(&*self);
        }
        if let CommandResult::Success = result {
            let mut undo: Vec<C> = Vec::new();
            std::mem::swap(&mut undo, &mut self.undo_stack);
            undo.push(command);
            self.undo_stack = undo;
        }
        result
    }

    /// Whether there is a command to undo.
    pub fn can_undo(&self) -> (b: bool)
        ensures
            b == (self.undo_seq().len() > 0),
    {
        !self.undo_stack.is_empty()
    }

    /// Whether there is a command to redo.
    pub fn can_redo(&self) -> (b: bool)
        ensures
            b == (self.redo_seq().len() > 0),
    {
        !self.redo_stack.is_empty()
    }

    /// How many commands can be undone.
    pub fn undo_len(&self) -> (n: usize)
        ensures
            n == self.undo_seq().len(),
            self.wf(),
    {
        proof {
            use_type_invariant(self);
        }
        self.undo_stack.len()
    }

    /// How many commands can be redone.
    pub fn redo_len(&self) -> (n: usize)
        ensures
            n == self.redo_seq().len(),
            self.wf(),
    {
        proof {
            use_type_invariant(self);
        }
        self.redo_stack.len()
    }

    /// Forgets the whole history.
    pub fn clear(&mut self)
        ensures
            final(self).undo_seq() == Seq::<C>::empty(),
            final(self).redo_seq() == Seq::<C>::empty(),
            final(self).max_history() == old(self).max_history(),
    {
        proof {
            use_type_invariant(&*self);
        }
        self.undo_stack = Vec::new();
        self.redo_stack = Vec::new();
    }
}

/// Every history, however it was reached from `new` through executes,
/// undos, redos and clears and whatever its commands reported, keeps the
/// bound `DEFAULT_MAX_HISTORY` and holds at most that many commands in its
/// two stacks together.
pub proof fn law_history_within_bound<C>(s: CommandStack<C>)
    requires
        s.wf(),
    ensures
        s.max_history() == DEFAULT_MAX_HISTORY,
        s.undo_seq().len() + s.redo_seq().len() <= DEFAULT_MAX_HISTORY,
{
}

/// Undoing a command and then redoing it brings both stacks back: the redo
/// stack is as before, and the undo stack holds the same commands, with the
/// redone one on top again.
pub proof fn law_undo_then_redo<C>(
    undo0: Seq<C>,
    redo0: Seq<C>,
    undone: C,
    undo1: Seq<C>,
    redo1: Seq<C>,
    redone: C,
    undo2: Seq<C>,
    redo2: Seq<C>,
)
    requires
        moved_top(undo0, redo0, undone, undo1, redo1),
        moved_top(redo1, undo1, redone, redo2, undo2),
    ensures
        redo2 == redo0,
        undo2.len() == undo0.len(),
        undo2.drop_last() == undo0.drop_last(),
        undo2.last() == redone,
{
    assert(redo2 =~= redo0);
    assert(undo2.drop_last() =~= undo0.drop_last());
}

/// Redoing a command and then undoing it brings both stacks back: the undo
/// stack is as before, and the redo stack holds the same commands, with the
/// undone one on top again.
pub proof fn law_redo_then_undo<C>(
    undo0: Seq<C>,
    redo0: Seq<C>,
    redone: C,
    undo1: Seq<C>,
    redo1: Seq<C>,
    undone: C,
    undo2: Seq<C>,
    redo2: Seq<C>,
)
    requires
        moved_top(redo0, undo0, redone, redo1, undo1),
        moved_top(undo1, redo1, undone, undo2, redo2),
    ensures
        undo2 == undo0,
        redo2.len() == redo0.len(),
        redo2.drop_last() == redo0.drop_last(),
        redo2.last() == undone,
{
    assert(undo2 =~= undo0);
    assert(redo2.drop_last() =~= redo0.drop_last());
}

/// A successful undo or redo keeps the number of commands in the history;
/// a failed one loses exactly the command it tried.
pub proof fn law_history_count<C>(from0: Seq<C>, to0: Seq<C>, moved: C, from1: Seq<C>, to1: Seq<C>)
    ensures
        moved_top(from0, to0, moved, from1, to1) ==> from1.len() + to1.len() == from0.len() + to0.len(),
        dropped_top(from0, to0, from1, to1) ==> from1.len() + to1.len() + 1 == from0.len() + to0.len(),
{
}

/// After a successful execute nothing can be redone, the executed command
/// is the next to undo, and the undo stack stays within the bound.
pub proof fn law_execute_bounds_history<C>(undo0: Seq<C>, max: nat, done: C, undo1: Seq<C>, redo1: Seq<C>)
    requires
        executed(undo0, max, done, undo1, redo1),
        undo0.len() <= max,
        max > 0,
    ensures
        redo1.len() == 0,
        undo1.len() <= max,
        undo1.len() > 0,
        undo1.last() == done,
        undo0.len() < max ==> undo1.drop_last() == undo0,
        undo0.len() == max ==> undo1.drop_last() == undo0.drop_first(),
{
    if undo0.len() == max {
        assert(undo1.drop_last() =~= undo0.drop_first());
    } else {
        assert(undo1.drop_last() =~= undo0);
    }
}

/// The undo stack after the commands of `cs` were executed one after
/// another, each successfully, on a history whose undo stack was `undo0`.
pub open spec fn undo_after_executions<C>(undo0: Seq<C>, cs: Seq<C>, max: nat) -> Seq<C>
    decreases cs.len(),
{
    if cs.len() == 0 {
        undo0
    } else {
        trim_oldest(undo_after_executions(undo0, cs.drop_last(), max).push(cs.last()), max)
    }
}

/// Executing commands one after another, each successfully, on an empty
/// history leaves the newest `max` of them to undo, oldest first; the ones
/// before them are forgotten.
pub proof fn law_history_keeps_newest<C>(cs: Seq<C>, max: nat)
    requires
        max > 0,
    ensures
        cs.len() <= max ==> undo_after_executions(Seq::<C>::empty(), cs, max) == cs,
        cs.len() > max ==> undo_after_executions(Seq::<C>::empty(), cs, max) == cs.subrange(
            cs.len() - max,
            cs.len() as int,
        ),
    decreases cs.len(),
{
    if cs.len() == 0 {
        assert(cs =~= Seq::<C>::empty());
    } else {
        let p = cs.drop_last();
        law_history_keeps_newest(p, max);
        let h = undo_after_executions(Seq::<C>::empty(), p, max);
        if p.len() < max {
            assert(h.push(cs.last()) =~= cs);
        } else if p.len() == max {
            assert(h.push(cs.last()) =~= cs);
            assert(cs.drop_first() =~= cs.subrange(cs.len() - max, cs.len() as int));
        } else {
            assert(h.push(cs.last()).drop_first() =~= cs.subrange(cs.len() - max, cs.len() as int));
        }
    }
}

impl<C> Default for CommandStack<C> {
    fn default() -> (s: Self)
        ensures
            s.wf(),
            s.undo_seq() == Seq::<C>::empty(),
            s.redo_seq() == Seq::<C>::empty(),
            s.max_history() == DEFAULT_MAX_HISTORY,
    {
        Self::new()
    }
}

} // verus!
