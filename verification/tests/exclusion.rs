use repo_sync::clonable::GitClonable;
use repo_sync::error::SyncError;
use repo_sync::repository::Repository;
use repo_sync::session::{Locking, Step};
use std::cell::RefCell;
use std::rc::Rc;

/// The lock files of a machine: the paths that are held right now, and who
/// entered and left, in order.
#[derive(Clone)]
struct LockFiles {
    held: Rc<RefCell<Vec<String>>>,
    log: Rc<RefCell<Vec<String>>>,
}

/// An exclusive hold on one path, given up when dropped.
struct Grant {
    files: LockFiles,
    path: String,
    who: usize,
}

impl Drop for Grant {
    fn drop(&mut self) {
        self.files.held.borrow_mut().retain(|path| path != &self.path);
        self.files.log.borrow_mut().push(format!("{} leaves {}", self.who, self.path));
    }
}

impl LockFiles {
    fn new() -> LockFiles {
        LockFiles { held: Rc::new(RefCell::new(Vec::new())), log: Rc::new(RefCell::new(Vec::new())) }
    }

    /// The hold on `path`, unless another has it.
    fn try_lock(&self, who: usize, path: &str) -> Option<Grant> {
        if self.held.borrow().iter().any(|held| held == path) {
            return None;
        }
        self.held.borrow_mut().push(path.to_string());
        self.log.borrow_mut().push(format!("{} enters {}", who, path));
        Some(Grant { files: self.clone(), path: path.to_string(), who })
    }
}

/// One operation and how far it has come.
enum Worker {
    Waiting(Locking),
    Working(String, Step<Grant, String>),
    Finished(Result<(), SyncError<String>>),
}

/// Lets the worker take one step: try for the lock, or answer what the
/// operation waits for. A look finds no directory and every run succeeds.
fn advance(worker: Worker, who: usize, files: &LockFiles, commands: &mut Vec<(usize, String)>) -> Worker {
    match worker {
        Worker::Waiting(start) => {
            let path = start.path().clone();
            match files.try_lock(who, &path) {
                None => Worker::Waiting(start),
                Some(grant) => Worker::Working(path, start.acquired(Ok(grant))),
            }
        }
        Worker::Working(path, Step::Probe(probing)) => Worker::Working(path, probing.probed(false)),
        Worker::Working(path, Step::Run(running)) => {
            commands.push((who, running.command().args[0].clone()));
            Worker::Working(path, running.exited(Ok(true)))
        }
        Worker::Working(_, Step::Done(result)) => Worker::Finished(result),
        Worker::Finished(result) => Worker::Finished(result),
    }
}

/// The lock path of a worker that is inside its locked window.
fn window(worker: &Worker) -> Option<&String> {
    match worker {
        Worker::Working(path, Step::Probe(_)) | Worker::Working(path, Step::Run(_)) => Some(path),
        _ => None,
    }
}

fn repository(name: &str, lock: &str) -> Repository {
    Repository {
        clone_from: format!("https://example.org/{}.git", name),
        clone_to: format!("/tmp/{}", name),
        extra_clone_args: Vec::new(),
        lock_path: lock.to_string(),
    }
}

/// Runs the operations to their ends, one step at a time, the next worker
/// picked by `seed`, and checks at every moment that no two workers on one
/// lock path are inside their windows. Returns the log of the lock files.
fn interleave(starts: Vec<Locking>, seed: u64) -> Vec<String> {
    let files = LockFiles::new();
    let count = starts.len();
    let mut workers: Vec<Option<Worker>> =
        starts.into_iter().map(|start| Some(Worker::Waiting(start))).collect();
    let mut commands: Vec<(usize, String)> = Vec::new();
    let mut state = seed;
    let mut steps = 0;
    while workers.iter().any(|worker| !matches!(worker, Some(Worker::Finished(_)))) {
        state = state.wrapping_mul(6364136223846793005).wrapping_add(1442695040888963407);
        let who = ((state >> 33) % count as u64) as usize;
        let worker = workers[who].take().unwrap();
        workers[who] = Some(advance(worker, who, &files, &mut commands));
        let inside: Vec<&String> =
            workers.iter().filter_map(|worker| window(worker.as_ref().unwrap())).collect();
        for (i, path) in inside.iter().enumerate() {
            assert!(inside[i + 1..].iter().all(|other| other != path));
        }
        steps += 1;
        assert!(steps < 100_000);
    }
    for worker in &workers {
        assert!(matches!(worker, Some(Worker::Finished(Ok(())))));
    }
    let log = files.log.borrow().clone();
    assert_eq!(log.len(), 2 * count);
    assert!(files.held.borrow().is_empty());
    log
}

/// On one path, each entry is followed by the exit of the same worker.
fn assert_windows_apart(log: &[String], path: &str) {
    let on_path: Vec<&String> = log.iter().filter(|line| line.ends_with(path)).collect();
    assert_eq!(on_path.len() % 2, 0);
    for pair in on_path.chunks(2) {
        let who = pair[0].split(' ').next().unwrap();
        assert_eq!(pair[0], &format!("{} enters {}", who, path));
        assert_eq!(pair[1], &format!("{} leaves {}", who, path));
    }
}

#[test]
fn operations_on_one_lock_path_never_overlap() {
    for seed in 0..200 {
        let repo = repository("project", "/tmp/project.lock");
        let starts = vec![
            repo.clone_repo(),
            repo.fetch_repo(),
            repo.clean(),
            repo.checkout("deadbeef"),
            repo.clean(),
        ];
        let log = interleave(starts, seed);
        assert_windows_apart(&log, "/tmp/project.lock");
    }
}

#[test]
fn descriptors_that_share_a_lock_path_wait_for_each_other() {
    for seed in 0..50 {
        let one = repository("one", "/tmp/shared.lock");
        let other = repository("other", "/tmp/shared.lock");
        let log = interleave(vec![one.clean(), other.clean(), one.fetch_repo()], seed);
        assert_windows_apart(&log, "/tmp/shared.lock");
    }
}

#[test]
fn operations_on_different_lock_paths_run_side_by_side() {
    let files = LockFiles::new();
    let mut commands = Vec::new();
    let one = repository("project", "/tmp/one.lock");
    let other = repository("project", "/tmp/other.lock");
    assert_eq!(one.clone_to, other.clone_to);
    let first = advance(Worker::Waiting(one.clean()), 0, &files, &mut commands);
    let second = advance(Worker::Waiting(other.clean()), 1, &files, &mut commands);
    assert_eq!(window(&first), Some(&"/tmp/one.lock".to_string()));
    assert_eq!(window(&second), Some(&"/tmp/other.lock".to_string()));
    assert_eq!(files.held.borrow().len(), 2);
}

#[test]
fn second_operation_waits_while_the_first_holds_the_lock() {
    let files = LockFiles::new();
    let mut commands = Vec::new();
    let repo = repository("project", "/tmp/project.lock");
    let mut first = advance(Worker::Waiting(repo.clean()), 0, &files, &mut commands);
    let mut second = Worker::Waiting(repo.fetch_repo());
    while window(&first).is_some() {
        second = advance(second, 1, &files, &mut commands);
        assert!(matches!(second, Worker::Waiting(_)));
        first = advance(first, 0, &files, &mut commands);
    }
    second = advance(second, 1, &files, &mut commands);
    assert_eq!(window(&second), Some(&"/tmp/project.lock".to_string()));
    let ran: Vec<String> = commands.iter().map(|(who, verb)| format!("{} {}", who, verb)).collect();
    assert_eq!(ran, vec!["0 am", "0 merge", "0 reset"]);
}
