use bson::oid::ObjectId;
use spider_worker::cmd::{apply_cmd, supported_cmd, Cmd, CmdReply, Value};
use spider_worker::taskstate::{Location, NewTask, TaskState};

fn new_task() -> NewTask {
    let id = ObjectId::from_bytes([9; 12]);
    NewTask {
        id,
        uid: id,
        campaign_id: id,
        industries: vec!["plumbers".to_string()],
        locations: vec![Location { city: "Boise".to_string(), state: "ID".to_string() }],
    }
}

fn report(slot: &mut Option<TaskState>) -> Option<spider_worker::taskstate::Check> {
    match apply_cmd(slot, Cmd::CHECK) {
        CmdReply::Check(c) => c,
        CmdReply::Nothing => panic!("CHECK must answer"),
    }
}

#[test]
fn start_check_stop() {
    let mut slot: Option<TaskState> = None;
    assert!(report(&mut slot).is_none());
    assert!(matches!(apply_cmd(&mut slot, Cmd::START(new_task())), CmdReply::Nothing));
    let c = report(&mut slot).unwrap();
    assert_eq!(c.todo_industries, vec!["plumbers".to_string()]);
    assert!(c.todo_locations.is_empty());
    assert_eq!(c.current_industry, None);
    assert!(matches!(apply_cmd(&mut slot, Cmd::STOP), CmdReply::Nothing));
    assert!(slot.is_none());
    assert!(report(&mut slot).is_none());
}

#[test]
fn add_queues_on_the_running_task() {
    let mut slot: Option<TaskState> = None;
    apply_cmd(&mut slot, Cmd::ADD(Value::Industry("ignored".to_string())));
    assert!(slot.is_none());
    apply_cmd(&mut slot, Cmd::START(new_task()));
    apply_cmd(&mut slot, Cmd::ADD(Value::Industry("roofers".to_string())));
    apply_cmd(&mut slot, Cmd::ADD(Value::Location(Location { city: "Nampa".to_string(), state: "ID".to_string() })));
    let c = report(&mut slot).unwrap();
    assert_eq!(c.todo_industries, vec!["plumbers".to_string(), "roofers".to_string()]);
    let t = slot.as_mut().unwrap();
    let _ = t.next_search();
    let _ = t.next_search();
    let cities: Vec<String> = t.loc().iter().map(|l| l.city.clone()).collect();
    assert_eq!(cities, vec!["Boise".to_string(), "Nampa".to_string()]);
}

#[test]
fn remove_and_pause_are_not_supported() {
    assert!(!supported_cmd(&Cmd::PAUSE));
    assert!(!supported_cmd(&Cmd::REMOVE(Value::Industry("x".to_string()))));
    assert!(supported_cmd(&Cmd::STOP));
    assert!(supported_cmd(&Cmd::CHECK));
    assert!(supported_cmd(&Cmd::START(new_task())));
}
