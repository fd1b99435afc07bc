use chrono::{TimeZone, Utc};
use todo_schedule::{DateTime, DateTimeRange, DoneStatus, DoneStatusList, Id, Time, TimeRange};

fn time(hour: usize, minute: usize) -> Time {
    Time::new(hour, minute).unwrap()
}

fn create_time(hour: u32, minute: u32) -> DateTime {
    let t = Utc.with_ymd_and_hms(2022, 1, 1, hour, minute, 0).unwrap();
    DateTime::new(t.timestamp(), t.timestamp_subsec_nanos())
}

fn todo_status_list_from_done_count(done: u32, undone: u32) -> DoneStatusList<Time> {
    let dones = (0..done).map(|_| DoneStatus::new(Id::new("done_status-id-1"), time(12, 30), true));
    let undones = (0..undone).map(|_| DoneStatus::new(Id::new("done_status-id-2"), time(12, 30), false));
    DoneStatusList::new(dones.chain(undones).collect())
}

fn todo_status_list_from_time(times: &[(usize, usize)]) -> DoneStatusList<Time> {
    DoneStatusList::new(
        times
            .iter()
            .map(|&(h, m)| DoneStatus::new(Id::new(&format!("done_status-id-{}-{}", h, m)), time(h, m), false))
            .collect(),
    )
}

#[test]
fn can_mark_as_done_or_undone() {
    let mut done_status = DoneStatus::new(Id::new("done-status"), time(12, 0), false);

    done_status.mark_as_done();
    assert_eq!(done_status.done(), true);
    assert_eq!(done_status.undone(), false);

    done_status.mark_as_undone();
    assert_eq!(done_status.done(), false);
    assert_eq!(done_status.undone(), true);
    assert_eq!(done_status.id().get(), "done-status");
    assert_eq!(*done_status.applicable_time(), time(12, 0));
}

#[test]
fn marking_twice_keeps_the_flag() {
    let mut done_status = DoneStatus::new(Id::new("d"), time(8, 0), true);
    done_status.mark_as_done();
    done_status.mark_as_done();
    assert!(done_status.done());
    done_status.mark_as_undone();
    done_status.mark_as_undone();
    assert!(done_status.undone());
}

#[test]
fn can_get_todo_status_by_the_time() {
    let list = todo_status_list_from_time(&[(10, 0), (11, 0), (12, 0)]);
    let cases = [
        ((9, 0), (13, 0), 3),
        ((10, 0), (12, 0), 2),
        ((10, 0), (11, 0), 1),
        ((11, 0), (12, 0), 1),
        ((9, 0), (10, 0), 0),
        ((13, 0), (14, 0), 0),
    ];
    for (start, end, expected_count) in cases {
        let range = TimeRange::new(time(start.0, start.1), time(end.0, end.1)).unwrap();
        assert_eq!(list.get_from_range(&range).len(), expected_count);
    }
}

#[test]
fn range_query_keeps_order_and_excludes_end() {
    let list = todo_status_list_from_time(&[(12, 0), (10, 0), (11, 0)]);
    let range = TimeRange::new(time(10, 0), time(12, 0)).unwrap();
    let found: Vec<Time> = list.get_from_range(&range).iter().map(|s| *s.applicable_time()).collect();
    assert_eq!(found, vec![time(10, 0), time(11, 0)]);
}

#[test]
fn range_query_keeps_repeated_times() {
    let list = todo_status_list_from_time(&[(10, 0), (10, 0)]);
    let range = TimeRange::new(time(10, 0), time(10, 1)).unwrap();
    assert_eq!(list.get_from_range(&range).len(), 2);
}

#[test]
fn date_time_status_by_the_time() {
    let list = DoneStatusList::new(
        [(10, 0), (11, 0), (12, 0)]
            .iter()
            .map(|&(h, m)| DoneStatus::new(Id::new("s"), create_time(h, m), false))
            .collect(),
    );
    let cases = [
        ((9, 0), (13, 0), 3),
        ((10, 0), (12, 0), 2),
        ((10, 0), (11, 0), 1),
        ((11, 0), (12, 0), 1),
        ((9, 0), (10, 0), 0),
        ((13, 0), (14, 0), 0),
    ];
    for (start, end, expected_count) in cases {
        let range = DateTimeRange::new(create_time(start.0, start.1), create_time(end.0, end.1)).unwrap();
        assert_eq!(list.get_from_range(&range).len(), expected_count);
    }
}

#[test]
fn marked_as_complete_when_all_todo_status_is_done() {
    let cases = [(5, 0, true), (4, 1, false), (1, 4, false), (0, 0, false)];
    for (done, undone, expected_complete) in cases {
        assert_eq!(todo_status_list_from_done_count(done, undone).complete(), expected_complete);
    }
}

#[test]
fn can_count_todos_marked_as_done() {
    for (done, undone) in [(5, 0), (4, 1), (1, 4), (0, 0)] {
        let list = todo_status_list_from_done_count(done, undone);
        assert_eq!(list.dones(), done as usize);
        assert_eq!(list.undones(), undone as usize);
        assert_eq!(list.dones() + list.undones(), list.max_dones());
    }
}

#[test]
fn can_count_maximum_dones() {
    let cases = [(5, 0, 5), (0, 3, 3), (3, 3, 6), (0, 0, 0)];
    for (done, undone, expected_max_dones) in cases {
        assert_eq!(todo_status_list_from_done_count(done, undone).max_dones(), expected_max_dones);
    }
}

#[test]
fn get_all_returns_the_list_in_order() {
    let list = todo_status_list_from_time(&[(9, 0), (8, 0)]);
    let all = list.get_all();
    assert_eq!(all.len(), 2);
    assert_eq!(all[0].id().get(), "done_status-id-9-0");
    assert_eq!(*all[1].applicable_time(), time(8, 0));
}

#[test]
fn cloned_list_keeps_every_status() {
    let list = todo_status_list_from_done_count(2, 1);
    let copy = list.clone();
    assert_eq!(copy.dones(), 2);
    assert_eq!(copy.max_dones(), 3);
}
