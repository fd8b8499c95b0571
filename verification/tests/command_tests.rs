use novadraw::command::{BasicCommand, Command, CommandResult, CommandStack};

/// Adds a number to a list; undo removes it again.
struct Push {
    value: i32,
    fail_execute: bool,
    fail_undo: bool,
}

impl Push {
    fn new(value: i32) -> Self {
        Push { value, fail_execute: false, fail_undo: false }
    }
}

impl Command<Vec<i32>> for Push {
    fn execute(&mut self, scene: &mut Vec<i32>) -> CommandResult {
        if self.fail_execute {
            return CommandResult::Failed("refused".to_string());
        }
        scene.push(self.value);
        CommandResult::Success
    }

    fn undo(&mut self, scene: &mut Vec<i32>) -> CommandResult {
        if self.fail_undo {
            return CommandResult::Cancelled;
        }
        scene.pop();
        CommandResult::Success
    }

    fn label(&self) -> &str {
        "Push"
    }
}

#[test]
fn execute_undo_redo_round_trip() {
    let mut scene = Vec::new();
    let mut stack = CommandStack::new();
    assert!(!stack.can_undo());
    assert_eq!(stack.execute(Push::new(1), &mut scene), CommandResult::Success);
    assert_eq!(stack.execute(Push::new(2), &mut scene), CommandResult::Success);
    assert_eq!(scene, vec![1, 2]);
    assert_eq!(stack.undo_len(), 2);

    assert_eq!(stack.undo(&mut scene), CommandResult::Success);
    assert_eq!(scene, vec![1]);
    assert_eq!((stack.undo_len(), stack.redo_len()), (1, 1));
    assert!(stack.can_redo());

    assert_eq!(stack.redo(&mut scene), CommandResult::Success);
    assert_eq!(scene, vec![1, 2]);
    assert_eq!((stack.undo_len(), stack.redo_len()), (2, 0));
}

#[test]
fn empty_history_reports_nothing_to_do() {
    let mut scene: Vec<i32> = Vec::new();
    let mut stack: CommandStack<Push> = CommandStack::default();
    assert_eq!(stack.undo(&mut scene), CommandResult::Failed("Nothing to undo".to_string()));
    assert_eq!(stack.redo(&mut scene), CommandResult::Failed("Nothing to redo".to_string()));
}

#[test]
fn executing_forgets_redo() {
    let mut scene = Vec::new();
    let mut stack = CommandStack::new();
    stack.execute(Push::new(1), &mut scene);
    stack.undo(&mut scene);
    assert_eq!(stack.redo_len(), 1);
    stack.execute(Push::new(3), &mut scene);
    assert_eq!(stack.redo_len(), 0);
    assert!(!stack.can_redo());
    assert_eq!(scene, vec![3]);
}

#[test]
fn failed_execute_is_not_recorded() {
    let mut scene = Vec::new();
    let mut stack = CommandStack::new();
    stack.execute(Push::new(1), &mut scene);
    stack.undo(&mut scene);
    let bad = Push { value: 9, fail_execute: true, fail_undo: false };
    assert_eq!(stack.execute(bad, &mut scene), CommandResult::Failed("refused".to_string()));
    assert_eq!((stack.undo_len(), stack.redo_len()), (0, 1));
}

#[test]
fn failed_undo_drops_the_command() {
    let mut scene = Vec::new();
    let mut stack = CommandStack::new();
    stack.execute(Push::new(1), &mut scene);
    stack.execute(Push { value: 2, fail_execute: false, fail_undo: true }, &mut scene);
    assert_eq!(stack.undo(&mut scene), CommandResult::Cancelled);
    assert_eq!((stack.undo_len(), stack.redo_len()), (1, 0));
    assert_eq!(scene, vec![1, 2]);
}

#[test]
fn history_keeps_the_last_hundred() {
    let mut scene = Vec::new();
    let mut stack = CommandStack::new();
    for i in 0..105 {
        stack.execute(Push::new(i), &mut scene);
    }
    assert_eq!(stack.undo_len(), 100);
    for _ in 0..100 {
        assert_eq!(stack.undo(&mut scene), CommandResult::Success);
    }
    assert_eq!(scene, vec![0, 1, 2, 3, 4]);
    assert!(!stack.can_undo());
    assert_eq!(stack.redo_len(), 100);
}

#[test]
fn clear_forgets_everything() {
    let mut scene = Vec::new();
    let mut stack = CommandStack::new();
    stack.execute(Push::new(1), &mut scene);
    stack.execute(Push::new(2), &mut scene);
    stack.undo(&mut scene);
    stack.clear();
    assert_eq!((stack.undo_len(), stack.redo_len()), (0, 0));
}

#[test]
fn default_merge_is_refused() {
    let a = Push::new(1);
    let b = Push::new(2);
    assert!(!a.can_merge_with(&b));
    assert_eq!(a.label(), "Push");
}

#[test]
fn recording_files_only_successes() {
    let mut stack: CommandStack<Push> = CommandStack::new();
    let r = stack.record_execution(Push::new(1), CommandResult::Success);
    assert_eq!(r, CommandResult::Success);
    assert_eq!((stack.undo_len(), stack.redo_len()), (1, 0));
    let r = stack.record_execution(Push::new(2), CommandResult::Cancelled);
    assert_eq!(r, CommandResult::Cancelled);
    assert_eq!((stack.undo_len(), stack.redo_len()), (1, 0));
    let r = stack.record_execution(Push::new(3), CommandResult::Failed("no".to_string()));
    assert_eq!(r, CommandResult::Failed("no".to_string()));
    assert_eq!((stack.undo_len(), stack.redo_len()), (1, 0));
    let mut scene = vec![1];
    assert_eq!(stack.undo(&mut scene), CommandResult::Success);
    assert_eq!(scene, Vec::<i32>::new());
    assert_eq!((stack.undo_len(), stack.redo_len()), (0, 1));
    stack.record_execution(Push::new(4), CommandResult::Success);
    assert_eq!((stack.undo_len(), stack.redo_len()), (1, 0));
}

/// Records, in a shared log, which command values were undone.
struct Logged {
    value: i32,
    log: std::rc::Rc<std::cell::RefCell<Vec<i32>>>,
}

impl Command<()> for Logged {
    fn execute(&mut self, _scene: &mut ()) -> CommandResult {
        CommandResult::Success
    }

    fn undo(&mut self, _scene: &mut ()) -> CommandResult {
        self.log.borrow_mut().push(self.value);
        CommandResult::Success
    }

    fn label(&self) -> &str {
        "Logged"
    }
}

#[test]
fn oldest_of_a_hundred_and_one_is_evicted() {
    let log = std::rc::Rc::new(std::cell::RefCell::new(Vec::new()));
    let mut stack = CommandStack::new();
    for i in 1..=101 {
        let r = stack.execute(Logged { value: i, log: log.clone() }, &mut ());
        assert_eq!(r, CommandResult::Success);
    }
    assert_eq!(stack.undo_len(), 100);
    for _ in 0..100 {
        assert_eq!(stack.undo(&mut ()), CommandResult::Success);
    }
    let expected: Vec<i32> = (2..=101).rev().collect();
    assert_eq!(*log.borrow(), expected);
    assert_eq!(stack.undo(&mut ()), CommandResult::Failed("Nothing to undo".to_string()));
    assert_eq!(log.borrow().len(), 100);
}

#[test]
fn recording_undo_and_redo_files_by_result() {
    let mut stack: CommandStack<Push> = CommandStack::new();
    stack.record_execution(Push::new(1), CommandResult::Success);
    let r = stack.record_undo(Push::new(2), CommandResult::Success);
    assert_eq!(r, CommandResult::Success);
    assert_eq!((stack.undo_len(), stack.redo_len()), (1, 1));
    let r = stack.record_undo(Push::new(3), CommandResult::Cancelled);
    assert_eq!(r, CommandResult::Cancelled);
    assert_eq!((stack.undo_len(), stack.redo_len()), (1, 1));
    let r = stack.record_redo(Push::new(4), CommandResult::Success);
    assert_eq!(r, CommandResult::Success);
    assert_eq!((stack.undo_len(), stack.redo_len()), (2, 1));
    let r = stack.record_redo(Push::new(5), CommandResult::Failed("x".to_string()));
    assert_eq!(r, CommandResult::Failed("x".to_string()));
    assert_eq!((stack.undo_len(), stack.redo_len()), (2, 1));
}

/// Counts how often it was executed and undone.
struct Counted {
    runs: std::rc::Rc<std::cell::Cell<(u32, u32)>>,
}

impl Command<Vec<i32>> for Counted {
    fn execute(&mut self, scene: &mut Vec<i32>) -> CommandResult {
        let (e, u) = self.runs.get();
        self.runs.set((e + 1, u));
        scene.push(7);
        CommandResult::Success
    }

    fn undo(&mut self, scene: &mut Vec<i32>) -> CommandResult {
        let (e, u) = self.runs.get();
        self.runs.set((e, u + 1));
        scene.pop();
        CommandResult::Success
    }

    fn label(&self) -> &str {
        "Counted"
    }
}

#[test]
fn redo_runs_the_undone_command_once() {
    let runs = std::rc::Rc::new(std::cell::Cell::new((0, 0)));
    let mut scene = vec![1];
    let mut stack = CommandStack::new();
    assert_eq!(stack.execute(Counted { runs: runs.clone() }, &mut scene), CommandResult::Success);
    assert_eq!(runs.get(), (1, 0));
    assert_eq!(stack.undo(&mut scene), CommandResult::Success);
    assert_eq!(runs.get(), (1, 1));
    assert_eq!(stack.redo(&mut scene), CommandResult::Success);
    assert_eq!(runs.get(), (2, 1));
    assert_eq!((stack.undo_len(), stack.redo_len()), (1, 0));
    assert_eq!(scene, vec![1, 7]);
    assert_eq!(stack.redo(&mut scene), CommandResult::Failed("Nothing to redo".to_string()));
    assert_eq!(runs.get(), (2, 1));
    assert_eq!(scene, vec![1, 7]);
}

fn push_seven(scene: &mut Vec<i32>) -> CommandResult {
    scene.push(7);
    CommandResult::Success
}

fn pop_one(scene: &mut Vec<i32>) -> CommandResult {
    scene.pop();
    CommandResult::Success
}

#[test]
fn basic_command_runs_its_functions() {
    let f: fn(&mut Vec<i32>) -> CommandResult = push_seven;
    let g: fn(&mut Vec<i32>) -> CommandResult = pop_one;
    let mut scene = vec![1];
    let mut stack = CommandStack::new();
    let cmd = BasicCommand::new(f, g, "Push seven");
    assert_eq!(Command::<Vec<i32>>::label(&cmd), "Push seven");
    assert_eq!(stack.execute(cmd, &mut scene), CommandResult::Success);
    assert_eq!(scene, vec![1, 7]);
    assert_eq!(stack.undo(&mut scene), CommandResult::Success);
    assert_eq!(scene, vec![1]);
    assert_eq!(stack.redo(&mut scene), CommandResult::Success);
    assert_eq!(scene, vec![1, 7]);
    assert_eq!((stack.undo_len(), stack.redo_len()), (1, 0));
}
