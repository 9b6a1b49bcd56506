use amiron_exec::Exec;

#[test]
fn test_create_task() {
    let mut exec = Exec::new();
    let task_id = exec.create_task(5);
    assert!(exec.contains_task(task_id));
}

#[test]
fn task_ids_pairwise_distinct() {
    let mut exec = Exec::new();
    let mut ids = Vec::new();
    for priority in 0..8u8 {
        ids.push(exec.create_task(priority));
    }
    for i in 0..ids.len() {
        for j in 0..ids.len() {
            if i != j {
                assert_ne!(ids[i], ids[j]);
            }
        }
    }
    // Identifiers stay distinct from older ones even after a termination.
    exec.terminate_task(ids[3]);
    let late = exec.create_task(1);
    for id in &ids {
        assert_ne!(*id, late);
    }
}

#[test]
fn fifo_per_mailbox() {
    let mut exec = Exec::new();
    let t = exec.create_task(2);
    assert!(exec.send_message(t, vec![1u8]));
    assert!(exec.send_message(t, vec![2u8, 2u8]));
    assert!(exec.send_message(t, vec![3u8, 3u8, 3u8]));
    assert_eq!(exec.receive_message(t), Some(vec![1u8]));
    assert_eq!(exec.receive_message(t), Some(vec![2u8, 2u8]));
    assert_eq!(exec.receive_message(t), Some(vec![3u8, 3u8, 3u8]));
    assert_eq!(exec.receive_message(t), None);
}

#[test]
fn cross_task_order_is_per_destination() {
    let mut exec = Exec::new();
    let t1 = exec.create_task(1);
    let t2 = exec.create_task(1);
    assert!(exec.send_message(t1, vec![10u8]));
    assert!(exec.send_message(t2, vec![20u8]));
    assert!(exec.send_message(t1, vec![11u8]));
    assert_eq!(exec.receive_message(t1), Some(vec![10u8]));
    assert_eq!(exec.receive_message(t2), Some(vec![20u8]));
    assert_eq!(exec.receive_message(t1), Some(vec![11u8]));
}

#[test]
fn termination_clears_mailbox() {
    let mut exec = Exec::new();
    let t = exec.create_task(9);
    assert!(exec.send_message(t, vec![42u8]));
    assert!(exec.send_message(t, vec![43u8]));
    exec.terminate_task(t);
    assert!(!exec.send_message(t, vec![44u8]));
    assert_eq!(exec.receive_message(t), None);
}

#[test]
fn terminate_twice_same_observable_state() {
    let mut exec = Exec::new();
    let t = exec.create_task(7);
    let other = exec.create_task(3);
    assert!(exec.send_message(other, vec![5u8]));
    exec.terminate_task(t);
    exec.terminate_task(t);
    // The second call changed nothing observable: `t` still rejects
    // messages, `other` is untouched, and scheduling is as after one call.
    assert!(!exec.send_message(t, vec![1u8]));
    assert_eq!(exec.receive_message(t), None);
    assert_eq!(exec.schedule(), Some(other));
    assert_eq!(exec.receive_message(other), Some(vec![5u8]));
}

#[test]
fn terminate_unknown_id_is_noop() {
    // Identifiers are handles into one executor; one from another executor
    // that this executor has not issued counts as never-created here.
    let mut donor = Exec::new();
    let _ = donor.create_task(0);
    let foreign = donor.create_task(0);
    let mut exec = Exec::new();
    // `foreign` was never issued by `exec`: terminating it is a silent no-op.
    exec.terminate_task(foreign);
    assert_eq!(exec.task_count(), 0);
    assert_eq!(exec.schedule(), None);
    let t = exec.create_task(4);
    assert!(!exec.contains_task(foreign));
    exec.terminate_task(foreign);
    assert!(exec.contains_task(t));
    assert_eq!(exec.schedule(), Some(t));
}

#[test]
fn priority_selection_picks_a_maximum() {
    let mut exec = Exec::new();
    let t3 = exec.create_task(3);
    let t7a = exec.create_task(7);
    let t7b = exec.create_task(7);
    let t1 = exec.create_task(1);
    for _ in 0..4 {
        let chosen = exec.schedule().expect("a Ready task exists");
        assert!(chosen == t7a || chosen == t7b);
        assert_ne!(chosen, t3);
        assert_ne!(chosen, t1);
    }
    // While one priority-7 task remains Ready, it must still win.
    exec.terminate_task(t7a);
    assert_eq!(exec.schedule(), Some(t7b));
    exec.terminate_task(t7b);
    assert_eq!(exec.schedule(), Some(t3));
}

#[test]
fn distinct_priorities_select_the_maximum() {
    let mut exec = Exec::new();
    let low = exec.create_task(0);
    let mid = exec.create_task(128);
    let high = exec.create_task(255);
    assert_eq!(exec.schedule(), Some(high));
    exec.terminate_task(high);
    assert_eq!(exec.schedule(), Some(mid));
    exec.terminate_task(mid);
    assert_eq!(exec.schedule(), Some(low));
}

#[test]
fn schedule_empty_when_no_ready_task() {
    let mut exec = Exec::new();
    assert_eq!(exec.schedule(), None);
    let a = exec.create_task(1);
    let b = exec.create_task(200);
    exec.terminate_task(a);
    exec.terminate_task(b);
    assert_eq!(exec.schedule(), None);
}

#[test]
fn example_scenario() {
    let mut exec = Exec::new();
    let a = exec.create_task(1);
    let b = exec.create_task(5);
    assert!(exec.send_message(b, b"hi".to_vec()));
    assert_eq!(exec.schedule(), Some(b));
    exec.terminate_task(b);
    assert_eq!(exec.schedule(), Some(a));
    assert_eq!(exec.receive_message(b), None);
}

#[test]
fn send_and_receive_on_unknown_id() {
    let mut donor = Exec::new();
    let foreign = donor.create_task(2);
    let mut exec = Exec::new();
    assert!(!exec.send_message(foreign, vec![9u8]));
    assert_eq!(exec.receive_message(foreign), None);
}

#[test]
fn empty_payload_and_empty_mailbox() {
    let mut exec = Exec::new();
    let t = exec.create_task(0);
    // Polling an existing, empty mailbox is the same empty result as an
    // unknown task.
    assert_eq!(exec.receive_message(t), None);
    assert!(exec.send_message(t, Vec::new()));
    assert_eq!(exec.receive_message(t), Some(Vec::new()));
    assert_eq!(exec.receive_message(t), None);
}
