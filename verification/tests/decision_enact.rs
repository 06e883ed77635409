use eventric_model::action::{
    Act,
    Action,
};
use eventric_model::decision::{
    Context,
    Events,
    Select,
    Update,
};
use eventric_model::enact::{
    conclusion_of,
    plan_append,
    Enactment,
    ReadPositions,
};
use eventric_model::event::{
    Identified,
    Tagged,
    Event,
};
use eventric_model::store::{
    CandidateEvent,
    Data,
    Error,
    EventMasked,
    Identifier,
    PersistentEvent,
    Position,
    Selection,
    Selections,
    Tag,
    Timestamp,
    Version,
};

struct Registered {
    id: String,
}

impl Identified for Registered {
    fn identifier() -> Result<Identifier, Error> {
        Ok(Identifier::new("course_registered".to_string()))
    }
}

impl Tagged for Registered {
    fn tags(&self) -> Result<Vec<Tag>, Error> {
        Ok(vec![Tag { prefix: "course".to_string(), value: self.id.clone() }])
    }
}

impl Event for Registered {}

fn candidate(name: &str) -> CandidateEvent {
    CandidateEvent {
        data: Data { bytes: name.as_bytes().to_vec() },
        identifier: Identifier::new(name.to_string()),
        tags: vec![],
        version: Version(0),
    }
}

fn masked(position: u64) -> EventMasked {
    EventMasked {
        event: PersistentEvent {
            data: Data { bytes: vec![] },
            identifier: Identifier::new("course_registered".to_string()),
            tags: vec![],
            version: Version(0),
            position: Position(position),
            timestamp: Timestamp(position * 10),
        },
        mask: vec![true],
    }
}

// An action that registers a course unless one of the events read shows that
// it exists already.
struct RegisterCourse {
    id: String,
    fail_select: bool,
    fail_update: bool,
    fail_act: bool,
}

struct Registration {
    exists: bool,
    seen: usize,
    events: Events,
}

#[derive(Debug)]
enum RegisterError {
    Store,
    Refused,
}

impl From<Error> for RegisterError {
    fn from(_: Error) -> Self {
        RegisterError::Store
    }
}

impl Context for RegisterCourse {
    type Context = Registration;

    fn context(&self) -> Registration {
        Registration { exists: false, seen: 0, events: Events::new() }
    }

    fn into_events(context: Registration) -> Events {
        context.events
    }
}

impl Select for RegisterCourse {
    fn select(&self, _: &Registration) -> Result<Selections, Error> {
        if self.fail_select {
            return Err(Error::Store("select".to_string()));
        }
        Ok(Selections { selections: vec![Selection { specifiers: vec![], tags: vec![] }] })
    }
}

impl Update for RegisterCourse {
    fn update(&self, context: &mut Registration, event: &EventMasked) -> Result<(), Error> {
        context.seen += 1;
        if self.fail_update {
            return Err(Error::Store("update".to_string()));
        }
        if event.event.identifier.name == "course_registered" {
            context.exists = true;
        }
        Ok(())
    }
}

impl Act for RegisterCourse {
    type Err = RegisterError;
    type Ok = bool;

    fn action(&mut self, context: &mut Registration) -> Result<bool, RegisterError> {
        if self.fail_act {
            return Err(RegisterError::Refused);
        }
        if context.exists {
            return Ok(false);
        }
        let event = Registered { id: self.id.clone() };
        context.events.append(&event, Ok(Data { bytes: b"{}".to_vec() }))?;
        Ok(true)
    }
}

impl Action for RegisterCourse {}

fn action() -> RegisterCourse {
    RegisterCourse { id: "c1".to_string(), fail_select: false, fail_update: false, fail_act: false }
}

#[test]
fn events_start_empty() {
    let e = Events::new();
    assert!(e.is_empty());
    assert_eq!(e.len(), 0);
    assert!(e.take().is_empty());
}

#[test]
fn events_take_returns_appended_in_order() {
    let mut e = Events::new();
    assert!(e.push_encoded(Ok(candidate("a"))).is_ok());
    assert!(e.push_encoded(Ok(candidate("b"))).is_ok());
    assert!(e.push_encoded(Err(Error::Serialization)).is_err());
    assert_eq!(e.len(), 2);
    let taken = e.take();
    assert_eq!(taken[0].identifier.name, "a");
    assert_eq!(taken[1].identifier.name, "b");
}

#[test]
fn events_append_encodes_event() {
    let mut e = Events::new();
    let r = e.append(&Registered { id: "x".to_string() }, Ok(Data { bytes: b"body".to_vec() }));
    assert!(r.is_ok());
    let taken = e.take();
    assert_eq!(taken.len(), 1);
    assert_eq!(taken[0].identifier.name, "course_registered");
    assert_eq!(taken[0].tags[0].value, "x");
    assert_eq!(taken[0].data.bytes, b"body".to_vec());
    assert_eq!(taken[0].version, Version(0));
}

#[test]
fn events_append_failure_leaves_events() {
    let mut e = Events::new();
    e.push_encoded(Ok(candidate("a"))).unwrap();
    let r = e.append(&Registered { id: "x".to_string() }, Err(Error::Serialization));
    assert!(matches!(r, Err(Error::Serialization)));
    assert_eq!(e.len(), 1);
}

#[test]
fn plan_append_skips_empty() {
    assert!(plan_append(vec![], Some(Position(3))).is_none());
    let a = plan_append(vec![candidate("a")], Some(Position(3))).unwrap();
    assert_eq!(a.after, Some(Position(3)));
    assert_eq!(a.events.len(), 1);
    let a = plan_append(vec![candidate("a")], None).unwrap();
    assert_eq!(a.after, None);
}

#[test]
fn read_positions_keep_the_last() {
    let mut r = ReadPositions::new();
    assert_eq!(r.last(), None);
    r.record(Position(4));
    r.record(Position(9));
    assert_eq!(r.last(), Some(Position(9)));
}

#[test]
fn enactment_without_events_read_appends_with_no_position() {
    let (e, selections) = Enactment::begin(action()).ok().unwrap();
    assert_eq!(selections.selections.len(), 1);
    assert_eq!(e.after(), None);
    let c = e.conclude().unwrap();
    assert!(c.ok);
    let append = c.append.unwrap();
    assert_eq!(append.after, None);
    assert_eq!(append.events.len(), 1);
    assert_eq!(append.events[0].identifier.name, "course_registered");
}

#[test]
fn enactment_conditions_append_on_last_event_read() {
    let mut a = action();
    a.id = "c2".to_string();
    let (mut e, _) = Enactment::begin(a).ok().unwrap();
    let mut other = masked(5);
    other.event.identifier = Identifier::new("course_withdrawn".to_string());
    e.observe(&other).unwrap();
    e.observe(&masked_withdrawn(8)).unwrap();
    assert_eq!(e.after(), Some(Position(8)));
    let c = e.conclude().unwrap();
    let append = c.append.unwrap();
    assert_eq!(append.after, Some(Position(8)));
}

fn masked_withdrawn(position: u64) -> EventMasked {
    let mut m = masked(position);
    m.event.identifier = Identifier::new("course_withdrawn".to_string());
    m
}

#[test]
fn enactment_appends_nothing_when_action_produces_nothing() {
    let (mut e, _) = Enactment::begin(action()).ok().unwrap();
    e.observe(&masked(3)).unwrap();
    let c = e.conclude().unwrap();
    assert!(!c.ok);
    assert!(c.append.is_none());
}

#[test]
fn enactment_stops_when_select_fails() {
    let mut a = action();
    a.fail_select = true;
    assert!(matches!(Enactment::begin(a), Err(Error::Store(m)) if m == "select"));
}

#[test]
fn enactment_reports_action_failure() {
    let mut a = action();
    a.fail_act = true;
    let (e, _) = Enactment::begin(a).ok().unwrap();
    assert!(matches!(e.conclude(), Err(RegisterError::Refused)));
}

#[test]
fn enactment_start_takes_selected() {
    let a = action();
    let context = a.context();
    let selected = Selections { selections: vec![] };
    let (e, s) = Enactment::start(a, context, Ok(selected)).ok().unwrap();
    assert!(s.selections.is_empty());
    assert_eq!(e.after(), None);
    let a = action();
    let context = a.context();
    assert!(matches!(Enactment::start(a, context, Err(Error::Store("x".to_string()))), Err(Error::Store(m)) if m == "x"));
}

#[test]
fn conclusion_of_acting() {
    let c = conclusion_of::<u8, RegisterError>(Ok(3), vec![candidate("a")], Some(Position(2))).unwrap();
    assert_eq!(c.ok, 3);
    let append = c.append.unwrap();
    assert_eq!(append.after, Some(Position(2)));
    assert_eq!(append.events.len(), 1);
    let c = conclusion_of::<u8, RegisterError>(Ok(4), vec![], Some(Position(2))).unwrap();
    assert!(c.append.is_none());
    let r = conclusion_of::<u8, RegisterError>(Err(RegisterError::Refused), vec![candidate("a")], None);
    assert!(matches!(r, Err(RegisterError::Refused)));
}

#[test]
fn failed_update_ends_the_reading() {
    let mut a = action();
    a.fail_update = true;
    let (mut e, _) = Enactment::begin(a).ok().unwrap();
    assert!(matches!(e.observe(&masked(3)), Err(Error::Store(m)) if m == "update"));
    assert_eq!(e.after(), Some(Position(3)));
    // nothing more is recorded after the failure
    assert!(matches!(e.observe(&masked(4)), Err(Error::Store(m)) if m == "update"));
    assert!(matches!(e.read(Ok(masked(5))), Err(Error::Store(m)) if m == "update"));
    assert_eq!(e.after(), Some(Position(3)));
    // and the action does not act: the failure is the result
    assert!(matches!(e.conclude(), Err(RegisterError::Store)));
}

#[test]
fn failed_read_ends_the_reading() {
    let (mut e, _) = Enactment::begin(action()).ok().unwrap();
    assert!(e.read(Ok(masked_withdrawn(2))).is_ok());
    assert!(matches!(e.read(Err(Error::Store("disk".to_string()))), Err(Error::Store(m)) if m == "disk"));
    assert!(matches!(e.read(Ok(masked_withdrawn(6))), Err(Error::Store(m)) if m == "disk"));
    assert_eq!(e.after(), Some(Position(2)));
    assert!(matches!(e.conclude(), Err(RegisterError::Store)));
}

#[test]
fn read_of_events_observes_them() {
    let (mut e, _) = Enactment::begin(action()).ok().unwrap();
    e.read(Ok(masked_withdrawn(1))).unwrap();
    e.read(Ok(masked_withdrawn(9))).unwrap();
    let c = e.conclude().unwrap();
    assert_eq!(c.append.unwrap().after, Some(Position(9)));
}

#[test]
fn law_take_returns_appended_on_values() {
    let mut e = Events::new();
    for name in ["x", "y", "z"] {
        e.push_encoded(Ok(candidate(name))).unwrap();
    }
    let names: Vec<String> = e.take().into_iter().map(|c| c.identifier.name).collect();
    assert_eq!(names, vec!["x", "y", "z"]);
}
