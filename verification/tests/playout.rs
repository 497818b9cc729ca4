use playout_queue::{Action, Config, Event, Queue, QueueEntry, Source, REMOTE_ATTEMPTS};
use std::collections::HashMap;
use std::sync::Arc;

/// What the transcoder of these tests hands out: a record of what it was
/// started on.
#[derive(Debug, Clone, PartialEq, Eq)]
struct Encoded {
    stream: usize,
    id: usize,
    data: Vec<u8>,
    ext: String,
}

/// A storage, a remote service and a transcoder with scripted behaviour.
struct World {
    storage: HashMap<String, Source>,
    /// The answers of the remote service, in order; once they are used up it
    /// fails.
    remote: Vec<Option<QueueEntry>>,
    /// The stream positions whose next start fails, in order.
    failing: Vec<usize>,
    trace: Vec<String>,
}

fn source(bytes: &[u8], ext: &str) -> Source {
    Source::new(Arc::new(bytes.to_vec()), ext.to_string())
}

fn entry(id: i64, path: &str) -> QueueEntry {
    QueueEntry::new(id, path.to_string())
}

fn config(streams: usize) -> Config {
    Config::new(streams, source(b"fallback", "ogg"), "http://radio/random".to_string())
}

fn encoded(stream: usize, id: usize, bytes: &[u8], ext: &str) -> Encoded {
    Encoded { stream, id, data: bytes.to_vec(), ext: ext.to_string() }
}

impl World {
    fn new() -> World {
        let mut storage = HashMap::new();
        storage.insert("a.mp3".to_string(), source(b"AAAA", "mp3"));
        storage.insert("b.flac".to_string(), source(b"BB", "flac"));
        storage.insert("good.mp3".to_string(), source(b"GOOD", "mp3"));
        World { storage, remote: Vec::new(), failing: Vec::new(), trace: Vec::new() }
    }

    fn perform(&mut self, action: Action) -> Event<Encoded> {
        match action {
            Action::Idle => panic!("nothing to perform"),
            Action::Resolve { path } => {
                self.trace.push(format!("resolve {}", path));
                Event::Resolved(self.storage.get(&path).map(|found| found.share()))
            }
            Action::Fetch { endpoint } => {
                self.trace.push(format!("fetch {}", endpoint));
                if self.remote.is_empty() {
                    Event::Fetched(None)
                } else {
                    Event::Fetched(self.remote.remove(0))
                }
            }
            Action::Transcode { source, stream, id } => {
                self.trace.push(format!("transcode {} #{}", stream, id));
                if self.failing.first() == Some(&stream) {
                    self.failing.remove(0);
                    Event::Transcoded(None)
                } else {
                    Event::Transcoded(Some(Encoded {
                        stream,
                        id,
                        data: source.data.to_vec(),
                        ext: source.ext.clone(),
                    }))
                }
            }
        }
    }

    /// Carries out `action` and what follows it until the queue is idle.
    /// Returns the number of reports.
    fn drive(&mut self, queue: &mut Queue<Encoded>, action: Action) -> usize {
        let mut action = action;
        let mut reports = 0;
        while action != Action::Idle {
            assert!(reports < 1000, "the recomputation does not end");
            let event = self.perform(action);
            action = queue.step(event);
            reports += 1;
        }
        reports
    }

    /// The next batch, as a caller that waits for it gets it.
    fn next_batch(&mut self, queue: &mut Queue<Encoded>) -> Vec<Encoded> {
        if let Some(batch) = queue.get_next_tc() {
            return batch;
        }
        let action = queue.pending();
        self.drive(queue, action);
        queue.get_next_tc().expect("a batch is staged after the recomputation")
    }

    fn count(&self, prefix: &str) -> usize {
        self.trace.iter().filter(|line| line.starts_with(prefix)).count()
    }
}

fn paths(queue: &Queue<Encoded>) -> Vec<String> {
    queue.entries().iter().map(|e| e.path.clone()).collect()
}

#[test]
fn entry_new_keeps_id_and_path() {
    let e = QueueEntry::new(-7, "music/track.ogg".to_string());
    assert_eq!(e.id, -7);
    assert_eq!(e.path, "music/track.ogg");
    let z = QueueEntry::new(i64::MAX, String::new());
    assert_eq!(z.id, i64::MAX);
    assert_eq!(z.path, "");
}

#[test]
fn source_share_reads_the_same_allocation() {
    let first = source(b"shared bytes", "wav");
    let shared = first.share();
    assert_eq!(shared, first);
    assert_eq!(&shared.data[..], b"shared bytes");
    assert_eq!(shared.ext, "wav");
    assert!(Arc::ptr_eq(&first.data, &shared.data));
    assert_eq!(Arc::strong_count(&first.data), 2);
}

#[test]
fn config_new_keeps_its_parts() {
    let cfg = config(3);
    assert_eq!(cfg.streams, 3);
    assert_eq!(cfg.fallback, source(b"fallback", "ogg"));
    assert_eq!(cfg.random, "http://radio/random");
}

#[test]
fn remote_attempts_is_ten() {
    assert_eq!(REMOTE_ATTEMPTS, 10);
}

#[test]
fn new_queue_is_empty_and_idle() {
    let queue: Queue<Encoded> = Queue::new(config(2));
    assert!(queue.entries().is_empty());
    assert!(queue.next().is_none());
    assert_eq!(queue.counter(), 0);
    assert_eq!(queue.pending(), Action::Idle);
    assert_eq!(queue.config(), &config(2));
}

#[test]
fn batch_has_one_buffer_per_profile_in_profile_order() {
    let mut world = World::new();
    let mut queue = Queue::new(config(3));
    let first = queue.push(entry(1, "a.mp3"));
    assert_eq!(first, Action::Resolve { path: "a.mp3".to_string() });
    let reports = world.drive(&mut queue, first);
    assert_eq!(reports, 4);
    assert_eq!(
        world.trace,
        vec!["resolve a.mp3", "transcode 0 #0", "transcode 1 #0", "transcode 2 #0"]
    );
    assert_eq!(queue.counter(), 1);
    let batch = queue.get_next_tc().unwrap();
    assert_eq!(
        batch,
        vec![
            encoded(0, 0, b"AAAA", "mp3"),
            encoded(1, 0, b"AAAA", "mp3"),
            encoded(2, 0, b"AAAA", "mp3"),
        ]
    );
}

#[test]
fn streams_of_a_batch_share_the_source_bytes() {
    let mut queue: Queue<Encoded> = Queue::new(config(2));
    queue.push(entry(1, "a.mp3"));
    let resolved = source(b"AAAA", "mp3");
    let first = queue.step(Event::Resolved(Some(resolved.share())));
    let second = queue.step(Event::Transcoded(Some(encoded(0, 0, b"x", "mp3"))));
    match (first, second) {
        (
            Action::Transcode { source: one, stream: 0, id: 0 },
            Action::Transcode { source: two, stream: 1, id: 0 },
        ) => {
            assert!(Arc::ptr_eq(&one.data, &resolved.data));
            assert!(Arc::ptr_eq(&two.data, &resolved.data));
            assert_eq!(one.ext, "mp3");
            assert_eq!(two.ext, "mp3");
        }
        other => panic!("unexpected actions {:?}", other),
    }
}

#[test]
fn push_recomputes_only_into_an_empty_queue() {
    let mut world = World::new();
    let mut queue = Queue::new(config(1));
    let first = queue.push(entry(1, "a.mp3"));
    assert_ne!(first, Action::Idle);
    world.drive(&mut queue, first);
    assert_eq!(queue.counter(), 1);
    let second = queue.push(entry(2, "b.flac"));
    assert_eq!(second, Action::Idle);
    assert_eq!(queue.counter(), 1);
    assert_eq!(paths(&queue), vec!["a.mp3", "b.flac"]);
    assert_eq!(queue.next(), &Some(vec![encoded(0, 0, b"AAAA", "mp3")]));
}

#[test]
fn push_head_always_recomputes() {
    let mut world = World::new();
    let mut queue = Queue::new(config(1));
    let first = queue.push(entry(1, "a.mp3"));
    world.drive(&mut queue, first);
    let second = queue.push_head(entry(2, "b.flac"));
    assert_eq!(second, Action::Resolve { path: "b.flac".to_string() });
    world.drive(&mut queue, second);
    assert_eq!(paths(&queue), vec!["b.flac", "a.mp3"]);
    assert_eq!(queue.get_next_tc(), Some(vec![encoded(0, 1, b"BB", "flac")]));
}

#[test]
fn pop_recomputes_only_when_the_queue_becomes_empty() {
    let mut world = World::new();
    let mut queue = Queue::new(config(1));
    let first = queue.push(entry(1, "a.mp3"));
    world.drive(&mut queue, first);
    queue.push(entry(2, "b.flac"));
    queue.push(entry(3, "good.mp3"));
    assert_eq!(queue.pop(), Action::Idle);
    assert_eq!(paths(&queue), vec!["a.mp3", "b.flac"]);
    assert_eq!(queue.pop(), Action::Idle);
    assert_eq!(paths(&queue), vec!["a.mp3"]);
    assert_eq!(queue.counter(), 1);
    let last = queue.pop();
    assert_eq!(last, Action::Fetch { endpoint: "http://radio/random".to_string() });
    assert!(queue.entries().is_empty());
}

#[test]
fn pop_on_an_empty_queue_recomputes() {
    let mut world = World::new();
    let mut queue = Queue::new(config(1));
    let action = queue.pop();
    assert_eq!(action, Action::Fetch { endpoint: "http://radio/random".to_string() });
    world.drive(&mut queue, action);
    assert!(queue.entries().is_empty());
    assert_eq!(queue.get_next_tc(), Some(vec![encoded(0, 0, b"fallback", "ogg")]));
}

#[test]
fn pop_head_always_recomputes() {
    let mut world = World::new();
    let mut queue = Queue::new(config(1));
    let first = queue.push(entry(1, "a.mp3"));
    world.drive(&mut queue, first);
    queue.push(entry(2, "b.flac"));
    let action = queue.pop_head();
    assert_eq!(action, Action::Resolve { path: "b.flac".to_string() });
    assert_eq!(paths(&queue), vec!["b.flac"]);
    world.drive(&mut queue, action);
    assert_eq!(queue.get_next_tc(), Some(vec![encoded(0, 1, b"BB", "flac")]));
}

#[test]
fn pop_head_on_an_empty_queue_is_a_no_op_that_recomputes() {
    let mut queue: Queue<Encoded> = Queue::new(config(1));
    let action = queue.pop_head();
    assert_eq!(action, Action::Fetch { endpoint: "http://radio/random".to_string() });
    assert!(queue.entries().is_empty());
}

#[test]
fn clear_always_recomputes() {
    let mut world = World::new();
    let mut queue = Queue::new(config(1));
    let first = queue.push(entry(1, "a.mp3"));
    world.drive(&mut queue, first);
    queue.push(entry(2, "b.flac"));
    let action = queue.clear();
    assert_eq!(action, Action::Fetch { endpoint: "http://radio/random".to_string() });
    assert!(queue.entries().is_empty());
    world.drive(&mut queue, action);
    assert_eq!(queue.get_next_tc(), Some(vec![encoded(0, 1, b"fallback", "ogg")]));
    let again = queue.clear();
    assert_eq!(again, Action::Fetch { endpoint: "http://radio/random".to_string() });
}

#[test]
fn mutations_recompute_exactly_on_head_changing_transitions() {
    let mut world = World::new();
    let mut queue = Queue::new(config(1));
    let mut completed = 0;
    let mut settle = |queue: &mut Queue<Encoded>, action: Action, recomputes: bool| {
        assert_eq!(action != Action::Idle, recomputes);
        world.drive(queue, action);
        if recomputes {
            completed += 1;
        }
        assert_eq!(queue.counter(), completed);
    };
    let a = queue.push(entry(1, "a.mp3"));
    settle(&mut queue, a, true);
    let a = queue.push(entry(2, "b.flac"));
    settle(&mut queue, a, false);
    let a = queue.push(entry(3, "good.mp3"));
    settle(&mut queue, a, false);
    let a = queue.pop();
    settle(&mut queue, a, false);
    let a = queue.push_head(entry(4, "good.mp3"));
    settle(&mut queue, a, true);
    let a = queue.pop_head();
    settle(&mut queue, a, true);
    let a = queue.pop();
    settle(&mut queue, a, false);
    let a = queue.pop();
    settle(&mut queue, a, true);
    let a = queue.pop();
    settle(&mut queue, a, true);
    let a = queue.pop_head();
    settle(&mut queue, a, true);
    let a = queue.clear();
    settle(&mut queue, a, true);
    let a = queue.push(entry(5, "a.mp3"));
    settle(&mut queue, a, true);
    let a = queue.clear();
    settle(&mut queue, a, true);
}

#[test]
fn selection_discards_the_unresolvable_prefix() {
    let mut world = World::new();
    let mut queue = Queue::new(config(2));
    queue.push(entry(1, "missing-1"));
    queue.push(entry(2, "missing-2"));
    queue.push(entry(3, "a.mp3"));
    queue.push(entry(4, "missing-3"));
    queue.push(entry(5, "b.flac"));
    let action = queue.start_next_tc();
    world.drive(&mut queue, action);
    assert_eq!(world.count("resolve"), 3);
    assert_eq!(paths(&queue), vec!["a.mp3", "missing-3", "b.flac"]);
    assert_eq!(
        queue.get_next_tc(),
        Some(vec![encoded(0, 0, b"AAAA", "mp3"), encoded(1, 0, b"AAAA", "mp3")])
    );
}

#[test]
fn self_healing_leaves_the_good_entry() {
    let mut world = World::new();
    let mut queue = Queue::new(config(1));
    queue.push(entry(1, "broken"));
    queue.push(entry(2, "broken2"));
    queue.push(entry(3, "good.mp3"));
    let batch = world.next_batch(&mut queue);
    assert_eq!(paths(&queue), vec!["good.mp3"]);
    assert_eq!(queue.entries()[0].id, 3);
    assert_eq!(batch, vec![encoded(0, 0, b"GOOD", "mp3")]);
    assert_eq!(world.trace, vec!["resolve broken", "resolve broken2", "resolve good.mp3", "transcode 0 #0"]);
}

#[test]
fn queue_of_unresolvable_entries_empties_and_asks_the_remote_service() {
    let mut queue: Queue<Encoded> = Queue::new(config(1));
    let first = queue.push(entry(1, "broken"));
    assert_eq!(first, Action::Resolve { path: "broken".to_string() });
    queue.push(entry(2, "broken2"));
    let second = queue.step(Event::Resolved(None));
    assert_eq!(second, Action::Resolve { path: "broken2".to_string() });
    assert_eq!(paths(&queue), vec!["broken2"]);
    let third = queue.step(Event::Resolved(None));
    assert_eq!(third, Action::Fetch { endpoint: "http://radio/random".to_string() });
    assert!(queue.entries().is_empty());
}

#[test]
fn fallback_after_ten_failed_remote_attempts() {
    let mut world = World::new();
    let mut queue = Queue::new(config(2));
    let batch = world.next_batch(&mut queue);
    assert_eq!(world.count("fetch http://radio/random"), 10);
    assert_eq!(world.count("resolve"), 0);
    assert_eq!(world.count("transcode"), 2);
    assert_eq!(world.trace.len(), 12);
    assert_eq!(
        batch,
        vec![encoded(0, 0, b"fallback", "ogg"), encoded(1, 0, b"fallback", "ogg")]
    );
    assert!(queue.entries().is_empty());
}

#[test]
fn fallback_is_not_used_before_the_tenth_failure() {
    let mut queue: Queue<Encoded> = Queue::new(config(1));
    let mut action = queue.start_next_tc();
    for _ in 0..9 {
        assert_eq!(action, Action::Fetch { endpoint: "http://radio/random".to_string() });
        action = queue.step(Event::Fetched(None));
    }
    assert_eq!(action, Action::Fetch { endpoint: "http://radio/random".to_string() });
    action = queue.step(Event::Fetched(None));
    assert_eq!(
        action,
        Action::Transcode { source: source(b"fallback", "ogg"), stream: 0, id: 0 }
    );
}

#[test]
fn unresolvable_candidate_counts_as_a_failed_attempt() {
    let mut world = World::new();
    for n in 0..10 {
        world.remote.push(Some(entry(100 + n, "nowhere")));
    }
    let mut queue = Queue::new(config(1));
    let batch = world.next_batch(&mut queue);
    assert_eq!(world.count("fetch"), 10);
    assert_eq!(world.count("resolve nowhere"), 10);
    assert_eq!(batch, vec![encoded(0, 0, b"fallback", "ogg")]);
    assert!(queue.entries().is_empty());
}

#[test]
fn first_resolvable_candidate_wins_and_is_not_queued() {
    let mut world = World::new();
    world.remote.push(None);
    world.remote.push(Some(entry(7, "nowhere")));
    world.remote.push(Some(entry(8, "b.flac")));
    world.remote.push(Some(entry(9, "a.mp3")));
    let mut queue = Queue::new(config(1));
    let batch = world.next_batch(&mut queue);
    assert_eq!(
        world.trace,
        vec![
            "fetch http://radio/random",
            "fetch http://radio/random",
            "resolve nowhere",
            "fetch http://radio/random",
            "resolve b.flac",
            "transcode 0 #0",
        ]
    );
    assert_eq!(batch, vec![encoded(0, 0, b"BB", "flac")]);
    assert!(queue.entries().is_empty());
    assert_eq!(world.remote.len(), 1);
}

#[test]
fn failed_start_discards_the_partial_batch_and_selects_again() {
    let mut world = World::new();
    world.failing.push(1);
    let mut queue = Queue::new(config(3));
    let action = queue.push(entry(1, "a.mp3"));
    world.drive(&mut queue, action);
    assert_eq!(
        world.trace,
        vec![
            "resolve a.mp3",
            "transcode 0 #0",
            "transcode 1 #0",
            "resolve a.mp3",
            "transcode 0 #0",
            "transcode 1 #0",
            "transcode 2 #0",
        ]
    );
    assert_eq!(queue.counter(), 1);
    let batch = queue.get_next_tc().unwrap();
    assert_eq!(batch.len(), 3);
    assert_eq!(
        batch,
        vec![
            encoded(0, 0, b"AAAA", "mp3"),
            encoded(1, 0, b"AAAA", "mp3"),
            encoded(2, 0, b"AAAA", "mp3"),
        ]
    );
}

#[test]
fn failed_start_never_stages_a_partial_batch() {
    let mut queue: Queue<Encoded> = Queue::new(config(3));
    queue.push(entry(1, "a.mp3"));
    queue.step(Event::Resolved(Some(source(b"AAAA", "mp3"))));
    queue.step(Event::Transcoded(Some(encoded(0, 0, b"AAAA", "mp3"))));
    let action = queue.step(Event::Transcoded(None));
    assert_eq!(action, Action::Resolve { path: "a.mp3".to_string() });
    assert!(queue.next().is_none());
    assert_eq!(queue.get_next_tc(), None);
    assert_eq!(queue.counter(), 0);
    assert_eq!(paths(&queue), vec!["a.mp3"]);
}

#[test]
fn repeated_failures_are_retried_until_a_batch_is_complete() {
    let mut world = World::new();
    world.failing = vec![0, 0, 1, 0, 1];
    let mut queue = Queue::new(config(2));
    let action = queue.push(entry(1, "b.flac"));
    world.drive(&mut queue, action);
    assert_eq!(world.count("resolve b.flac"), 6);
    assert_eq!(world.count("transcode 0"), 6);
    assert_eq!(world.count("transcode 1"), 3);
    assert_eq!(queue.counter(), 1);
    assert_eq!(
        queue.get_next_tc(),
        Some(vec![encoded(0, 0, b"BB", "flac"), encoded(1, 0, b"BB", "flac")])
    );
}

#[test]
fn push_then_pop_goes_from_the_entry_to_the_fallback_policy() {
    let mut world = World::new();
    world.remote = vec![None, Some(entry(9, "good.mp3"))];
    let mut queue = Queue::new(config(1));
    let action = queue.push(entry(1, "a.mp3"));
    world.drive(&mut queue, action);
    assert_eq!(queue.next(), &Some(vec![encoded(0, 0, b"AAAA", "mp3")]));
    let action = queue.pop();
    world.drive(&mut queue, action);
    assert_eq!(
        world.trace,
        vec![
            "resolve a.mp3",
            "transcode 0 #0",
            "fetch http://radio/random",
            "fetch http://radio/random",
            "resolve good.mp3",
            "transcode 0 #1",
        ]
    );
    assert_eq!(queue.get_next_tc(), Some(vec![encoded(0, 1, b"GOOD", "mp3")]));
    let mut world = World::new();
    let action = queue.push(entry(2, "a.mp3"));
    world.drive(&mut queue, action);
    let action = queue.pop();
    world.drive(&mut queue, action);
    assert_eq!(world.count("fetch"), 10);
    assert_eq!(queue.get_next_tc(), Some(vec![encoded(0, 3, b"fallback", "ogg")]));
}

#[test]
fn retrieval_twice_recomputes_a_fresh_batch() {
    let mut world = World::new();
    let mut queue = Queue::new(config(2));
    let action = queue.push(entry(1, "a.mp3"));
    world.drive(&mut queue, action);
    let first = world.next_batch(&mut queue);
    assert_eq!(first, vec![encoded(0, 0, b"AAAA", "mp3"), encoded(1, 0, b"AAAA", "mp3")]);
    assert!(queue.next().is_none());
    let second = world.next_batch(&mut queue);
    assert_eq!(second, vec![encoded(0, 1, b"AAAA", "mp3"), encoded(1, 1, b"AAAA", "mp3")]);
    assert_eq!(world.count("resolve a.mp3"), 2);
    assert_eq!(queue.counter(), 2);
    assert_eq!(paths(&queue), vec!["a.mp3"]);
}

#[test]
fn retrieval_with_nothing_staged_starts_the_recomputation() {
    let mut queue: Queue<Encoded> = Queue::new(config(1));
    queue.push(entry(1, "a.mp3"));
    queue.step(Event::Resolved(Some(source(b"AAAA", "mp3"))));
    queue.step(Event::Transcoded(Some(encoded(0, 0, b"AAAA", "mp3"))));
    assert_eq!(queue.pending(), Action::Idle);
    assert_eq!(queue.get_next_tc(), Some(vec![encoded(0, 0, b"AAAA", "mp3")]));
    assert_eq!(queue.pending(), Action::Idle);
    assert_eq!(queue.get_next_tc(), None);
    assert_eq!(queue.pending(), Action::Resolve { path: "a.mp3".to_string() });
}

#[test]
fn retrieval_during_a_recomputation_hands_out_nothing() {
    let mut world = World::new();
    let mut queue = Queue::new(config(2));
    let action = queue.push(entry(1, "a.mp3"));
    world.drive(&mut queue, action);
    let action = queue.push_head(entry(2, "b.flac"));
    assert_eq!(action, Action::Resolve { path: "b.flac".to_string() });
    assert_eq!(queue.next(), &Some(vec![encoded(0, 0, b"AAAA", "mp3"), encoded(1, 0, b"AAAA", "mp3")]));
    assert_eq!(queue.get_next_tc(), None);
    assert_eq!(queue.pending(), Action::Resolve { path: "b.flac".to_string() });
    queue.step(Event::Resolved(Some(source(b"BB", "flac"))));
    assert_eq!(queue.get_next_tc(), None);
    assert_eq!(
        queue.pending(),
        Action::Transcode { source: source(b"BB", "flac"), stream: 0, id: 1 }
    );
    world.drive(&mut queue, Action::Transcode { source: source(b"BB", "flac"), stream: 0, id: 1 });
    assert_eq!(
        queue.get_next_tc(),
        Some(vec![encoded(0, 1, b"BB", "flac"), encoded(1, 1, b"BB", "flac")])
    );
}

#[test]
fn report_that_answers_nothing_is_ignored() {
    let mut queue: Queue<Encoded> = Queue::new(config(2));
    assert_eq!(queue.step(Event::Resolved(Some(source(b"AAAA", "mp3")))), Action::Idle);
    assert_eq!(queue.step(Event::Fetched(None)), Action::Idle);
    assert_eq!(queue.step(Event::Transcoded(Some(encoded(0, 0, b"", "")))), Action::Idle);
    assert!(queue.next().is_none());
    assert_eq!(queue.counter(), 0);
    let resolve = queue.push(entry(1, "a.mp3"));
    assert_eq!(queue.step(Event::Fetched(Some(entry(2, "b.flac")))), resolve);
    assert_eq!(queue.step(Event::Transcoded(None)), resolve);
    assert_eq!(paths(&queue), vec!["a.mp3"]);
    let transcode = queue.step(Event::Resolved(Some(source(b"AAAA", "mp3"))));
    assert_eq!(queue.step(Event::Resolved(None)), transcode);
    assert_eq!(queue.step(Event::Fetched(None)), transcode);
    assert_eq!(paths(&queue), vec!["a.mp3"]);
    let mut empty: Queue<Encoded> = Queue::new(config(2));
    let fetch = empty.start_next_tc();
    assert_eq!(empty.step(Event::Resolved(None)), fetch);
    assert_eq!(empty.step(Event::Transcoded(None)), fetch);
    let probe = empty.step(Event::Fetched(Some(entry(3, "a.mp3"))));
    assert_eq!(probe, Action::Resolve { path: "a.mp3".to_string() });
    assert_eq!(empty.step(Event::Fetched(None)), probe);
}

#[test]
fn station_without_streams_stages_the_empty_batch() {
    let mut queue: Queue<Encoded> = Queue::new(config(0));
    let action = queue.push(entry(1, "a.mp3"));
    assert_eq!(action, Action::Resolve { path: "a.mp3".to_string() });
    assert_eq!(queue.step(Event::Resolved(Some(source(b"AAAA", "mp3")))), Action::Idle);
    assert_eq!(queue.counter(), 1);
    assert_eq!(queue.get_next_tc(), Some(Vec::new()));
    assert_eq!(queue.get_next_tc(), None);
}

#[test]
fn correlation_number_counts_the_completed_batches() {
    let mut world = World::new();
    world.failing.push(0);
    let mut queue = Queue::new(config(1));
    for round in 0..5 {
        assert_eq!(queue.counter(), round);
        let batch = world.next_batch(&mut queue);
        assert_eq!(batch, vec![encoded(0, round, b"fallback", "ogg")]);
    }
    assert_eq!(queue.counter(), 5);
}

#[test]
fn start_next_tc_drops_the_recomputation_in_progress() {
    let mut queue: Queue<Encoded> = Queue::new(config(2));
    let mut action = queue.start_next_tc();
    for _ in 0..4 {
        action = queue.step(Event::Fetched(None));
    }
    assert_eq!(action, Action::Fetch { endpoint: "http://radio/random".to_string() });
    action = queue.start_next_tc();
    for _ in 0..9 {
        action = queue.step(Event::Fetched(None));
        assert_eq!(action, Action::Fetch { endpoint: "http://radio/random".to_string() });
    }
    action = queue.step(Event::Fetched(None));
    assert_eq!(
        action,
        Action::Transcode { source: source(b"fallback", "ogg"), stream: 0, id: 0 }
    );
    queue.step(Event::Transcoded(Some(encoded(0, 0, b"fallback", "ogg"))));
    assert_eq!(queue.start_next_tc(), Action::Fetch { endpoint: "http://radio/random".to_string() });
    assert!(queue.next().is_none());
}

#[test]
fn mutation_during_a_recomputation_restarts_it_only_on_a_head_change() {
    let mut queue: Queue<Encoded> = Queue::new(config(2));
    queue.push(entry(1, "a.mp3"));
    queue.step(Event::Resolved(Some(source(b"AAAA", "mp3"))));
    let building = queue.step(Event::Transcoded(Some(encoded(0, 0, b"AAAA", "mp3"))));
    assert_eq!(building, Action::Transcode { source: source(b"AAAA", "mp3"), stream: 1, id: 0 });
    assert_eq!(queue.push(entry(2, "b.flac")), building);
    assert_eq!(queue.pop(), building);
    let restarted = queue.push_head(entry(3, "good.mp3"));
    assert_eq!(restarted, Action::Resolve { path: "good.mp3".to_string() });
    let mut empty: Queue<Encoded> = Queue::new(config(1));
    empty.start_next_tc();
    empty.step(Event::Fetched(None));
    empty.step(Event::Fetched(None));
    let restarted = empty.push(entry(4, "a.mp3"));
    assert_eq!(restarted, Action::Resolve { path: "a.mp3".to_string() });
}
