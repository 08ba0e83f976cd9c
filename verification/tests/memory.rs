use tick_agent::ratio::Ratio;
use tick_agent::replay_log::ReplaySample;
use tick_agent::replaybuffer::ReplayBuffer;

fn sample(id: usize) -> ReplaySample {
    let r = Ratio { num: id as i128, den: 1 };
    ReplaySample { state: [r; 12], action: id % 3, reward: r, next_state: [r; 12] }
}

fn filled(capacity: usize, count: usize) -> ReplayBuffer {
    let mut memory = ReplayBuffer::new(capacity);
    for id in 0..count {
        memory.push(sample(id));
    }
    memory
}

fn ids(batch: &[ReplaySample]) -> Vec<i128> {
    batch.iter().map(|s| s.reward.num).collect()
}

#[test]
fn a_new_memory_is_empty() {
    let memory = ReplayBuffer::new(4);
    assert_eq!(memory.len(), 0);
    assert!(memory.is_ready(0));
    assert!(!memory.is_ready(1));
}

#[test]
fn the_memory_never_exceeds_its_capacity() {
    let mut memory = ReplayBuffer::new(4);
    for id in 0..20 {
        memory.push(sample(id));
        assert!(memory.len() <= 4);
        assert_eq!(memory.len(), (id + 1).min(4));
    }
}

#[test]
fn the_memory_keeps_the_most_recent_samples_in_order() {
    let memory = filled(4, 10);
    assert_eq!(ids(&memory.gather(&[0, 1, 2, 3])), vec![6, 7, 8, 9]);
}

#[test]
fn a_memory_without_capacity_keeps_nothing() {
    let memory = filled(0, 5);
    assert_eq!(memory.len(), 0);
}

#[test]
fn readiness_compares_the_length() {
    let memory = filled(10, 3);
    assert!(memory.is_ready(0));
    assert!(memory.is_ready(3));
    assert!(!memory.is_ready(4));
}

#[test]
fn gather_follows_the_indices() {
    let memory = filled(10, 6);
    assert_eq!(ids(&memory.gather(&[5, 0, 3])), vec![5, 0, 3]);
    assert_eq!(ids(&memory.gather(&[2, 2])), vec![2, 2]);
    assert!(memory.gather(&[]).is_empty());
}

#[test]
fn a_batch_has_the_size_asked_for_and_no_repeats() {
    let memory = filled(50, 50);
    for batch_size in [0usize, 1, 2, 11, 12, 25, 49, 50] {
        for _ in 0..20 {
            let batch = memory.sample(batch_size);
            assert_eq!(batch.len(), batch_size);
            let mut seen = ids(&batch);
            seen.sort();
            seen.dedup();
            assert_eq!(seen.len(), batch_size);
            assert!(seen.iter().all(|id| (0..50).contains(id)));
        }
    }
}

#[test]
fn a_batch_is_drawn_from_what_the_memory_holds_now() {
    let memory = filled(5, 100);
    for _ in 0..20 {
        let batch = memory.sample(3);
        assert!(ids(&batch).iter().all(|id| (95..100).contains(id)));
        assert!(batch.iter().all(|s| *s == sample(s.reward.num as usize)));
    }
}

#[test]
fn a_full_batch_is_the_whole_memory() {
    let memory = filled(8, 8);
    let mut seen = ids(&memory.sample(8));
    seen.sort();
    assert_eq!(seen, (0..8).collect::<Vec<i128>>());
}

#[test]
fn batches_vary() {
    let memory = filled(100, 100);
    let first = ids(&memory.sample(10));
    let varied = (0..50).any(|_| ids(&memory.sample(10)) != first);
    assert!(varied);
}
