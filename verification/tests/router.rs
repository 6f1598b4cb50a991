use std::any::TypeId;
use std::cell::RefCell;
use std::rc::Rc;

use auravibe::error::NavigationError;
use auravibe::message::{Navigation, PageMessage, RouteMessage};
use auravibe::page::{Lifecycle, PageFactory, PageInstance};
use auravibe::router::Router;

type Log = Rc<RefCell<Vec<String>>>;

/// What a test page is asked to do.
#[derive(Debug, Clone)]
enum Msg {
    Bump,
    Go(usize),
}

struct Counter;
struct Kept;
struct Third;
struct Missing;

struct TestPage {
    id: usize,
    n: u32,
    log: Log,
}

impl PageInstance for TestPage {
    type Message = Msg;
    type Options = u8;
    type Snapshot = u32;
    type Output = u32;

    fn on_enter(&mut self) {
        self.log.borrow_mut().push(format!("enter {}", self.id));
    }

    fn on_navigate(&mut self, options: &u8) {
        self.log.borrow_mut().push(format!("navigate {} {}", self.id, options));
    }

    fn on_suspend(&mut self) {
        self.log.borrow_mut().push(format!("suspend {}", self.id));
    }

    fn on_resume(&mut self) {
        self.log.borrow_mut().push(format!("resume {}", self.id));
    }

    fn restore(&mut self, snapshot: u32) {
        self.log.borrow_mut().push(format!("restore {} {}", self.id, snapshot));
        self.n = snapshot;
    }

    fn into_snapshot(self) -> Option<u32> {
        self.log.borrow_mut().push(format!("snapshot {} {}", self.id, self.n));
        Some(self.n)
    }

    fn update(&mut self, message: &PageMessage<Msg>) -> (u32, Option<Navigation<u8>>) {
        match message.inner() {
            Msg::Bump => {
                self.n += 1;
                (self.n, None)
            }
            Msg::Go(index) => (self.n, Some(Navigation::index(*index))),
        }
    }
}

struct Factory {
    log: Log,
}

impl PageFactory<()> for Factory {
    type Instance = TestPage;

    fn build(&self, _: &(), id: usize, generation: u64) -> TestPage {
        self.log.borrow_mut().push(format!("build {} {}", id, generation));
        TestPage {
            id,
            n: 0,
            log: self.log.clone(),
        }
    }
}

type R = Router<(), Factory>;

fn router() -> (R, Log) {
    let log: Log = Rc::new(RefCell::new(Vec::new()));
    let mut router = R::new(());
    let f = || Factory { log: log.clone() };
    router.add(TypeId::of::<Counter>(), "counter".into(), Lifecycle::Drop, f());
    router.add(TypeId::of::<Kept>(), "kept".into(), Lifecycle::Suspend, f());
    router.add(TypeId::of::<Third>(), "third".into(), Lifecycle::Drop, f());
    (router, log)
}

fn go<T: 'static>(router: &mut R) -> Result<usize, NavigationError> {
    let name = if TypeId::of::<T>() == TypeId::of::<Missing>() { "router::Missing" } else { "router::Page" };
    router.navigate(&TypeId::of::<T>(), name)
}

fn bump(router: &mut R) -> u32 {
    let route = router
        .message(&TypeId::of::<Counter>(), Msg::Bump)
        .expect("counter is live");
    router.update(route).0.expect("delivered")
}

fn take(log: &Log) -> Vec<String> {
    std::mem::take(&mut *log.borrow_mut())
}

#[test]
fn forward_restores_the_latest_snapshot() {
    let (mut router, _) = router();
    go::<Counter>(&mut router).unwrap();
    bump(&mut router);
    bump(&mut router);
    go::<Kept>(&mut router).unwrap();
    assert_eq!(router.back(), Some(0));
    assert_eq!(bump(&mut router), 3);
    assert_eq!(router.forward(), Some(1));
    assert_eq!(router.back(), Some(0));
    assert_eq!(bump(&mut router), 4, "the snapshot taken when leaving via forward wins");
}

#[test]
fn a_navigation_after_back_truncates_the_forward_branch() {
    let (mut router, _) = router();
    go::<Counter>(&mut router).unwrap();
    go::<Kept>(&mut router).unwrap();
    assert_eq!(router.back(), Some(0));
    assert!(router.can_go_forward());
    go::<Third>(&mut router).unwrap();
    assert!(!router.can_go_forward());
    assert_eq!(router.forward(), None);
    assert_eq!(router.back(), Some(0));
    assert_eq!(router.forward(), Some(2), "the new branch replaced the old one");
}

#[test]
fn back_and_forward_at_the_ends_are_none() {
    let (mut router, _) = router();
    assert_eq!(router.back(), None);
    assert_eq!(router.forward(), None);
    assert!(!router.can_go_back() && !router.can_go_forward());
    go::<Counter>(&mut router).unwrap();
    assert_eq!(router.back(), None);
    assert_eq!(router.forward(), None);
    assert_eq!(router.current(), Some(0), "the ends leave the page alone");
}

#[test]
fn errors_name_the_page_or_the_index() {
    let (mut router, _) = router();
    let unknown = go::<Missing>(&mut router).unwrap_err();
    assert!(matches!(unknown, NavigationError::UnknownPage { .. }));
    assert!(format!("{unknown:?}").contains("UnknownPage"));
    assert!(unknown.to_string().contains("Missing"));
    let range = router.navigate_index(99).unwrap_err();
    assert!(matches!(range, NavigationError::IndexOutOfRange { index: 99, len: 3 }));
    assert_eq!(router.current(), None, "a refused navigation changes nothing");
}

#[test]
fn a_dropped_page_snapshots_on_leave_and_restores_on_return() {
    let (mut router, log) = router();
    go::<Counter>(&mut router).unwrap();
    assert_eq!(take(&log), ["build 0 0", "enter 0"]);
    bump(&mut router);
    go::<Third>(&mut router).unwrap();
    assert_eq!(take(&log), ["snapshot 0 1", "build 2 0", "enter 2"]);
    assert!(router.instance(0).is_none());
    go::<Counter>(&mut router).unwrap();
    assert_eq!(take(&log), ["snapshot 2 0", "build 0 1", "restore 0 1", "enter 0"]);
    assert_eq!(router.instance(0).map(|p| p.n), Some(1));
}

#[test]
fn a_suspended_page_is_kept_and_told() {
    let (mut router, log) = router();
    go::<Kept>(&mut router).unwrap();
    go::<Third>(&mut router).unwrap();
    assert_eq!(take(&log), ["build 1 0", "enter 1", "suspend 1", "build 2 0", "enter 2"]);
    assert!(router.instance(1).is_some());
    go::<Kept>(&mut router).unwrap();
    assert_eq!(take(&log), ["snapshot 2 0", "resume 1", "enter 1"]);
}

#[test]
fn a_resident_page_is_built_when_added() {
    let log: Log = Rc::new(RefCell::new(Vec::new()));
    let mut router = R::new(());
    router.add(
        TypeId::of::<Counter>(),
        "home".into(),
        Lifecycle::Resident,
        Factory { log: log.clone() },
    );
    assert_eq!(take(&log), ["build 0 0"]);
    assert!(router.instance(0).is_some());
    assert_eq!(router.current(), None);
}

#[test]
fn added_pages_are_found_and_navigations_checked() {
    let (router, _) = router();
    assert_eq!(router.index_of(&TypeId::of::<Kept>()), Some(1));
    assert_eq!(router.index_of(&TypeId::of::<Missing>()), None);
    assert!(router.can_apply(&Navigation::to_target(TypeId::of::<Third>(), "Third", None)));
    assert!(!router.can_apply(&Navigation::to_target(TypeId::of::<Missing>(), "Missing", None)));
    assert!(!router.can_apply(&Navigation::replace_target(TypeId::of::<Missing>(), "Missing")));
    assert!(router.can_apply(&Navigation::index(2)));
    assert!(!router.can_apply(&Navigation::index(3)));
    assert!(router.can_apply(&Navigation::back()));
}

#[test]
fn page_infos_list_every_page_in_order() {
    let (mut router, _) = router();
    router.navigate_index(1).unwrap();
    let pages = router.pages();
    let names: Vec<&str> = pages.iter().map(|p| p.name).collect();
    assert_eq!(names, ["counter", "kept", "third"]);
    assert_eq!(pages.iter().filter(|p| p.is_current).count(), 1);
    assert!(pages[1].is_current);
    assert_eq!(pages[2].index, 2);
}

#[test]
fn a_message_for_a_dropped_instance_is_ignored() {
    let (mut router, _) = router();
    go::<Counter>(&mut router).unwrap();
    let stale = router.message(&TypeId::of::<Counter>(), Msg::Bump).unwrap();
    go::<Third>(&mut router).unwrap();
    go::<Counter>(&mut router).unwrap();
    assert_eq!(router.update(stale).0, None, "the old generation is gone");
    assert_eq!(bump(&mut router), 1);
}

#[test]
fn a_message_for_a_page_without_an_instance_is_none() {
    let (router, _) = router();
    assert!(router.message(&TypeId::of::<Counter>(), Msg::Bump).is_none());
    assert!(router.message(&TypeId::of::<Missing>(), Msg::Bump).is_none());
}

#[test]
fn a_page_may_ask_for_a_navigation() {
    let (mut router, _) = router();
    go::<Counter>(&mut router).unwrap();
    let route = router.message(&TypeId::of::<Counter>(), Msg::Go(2)).unwrap();
    assert_eq!(router.update(route), (Some(0), None));
    assert_eq!(router.current(), Some(2));
    let route = router.message(&TypeId::of::<Third>(), Msg::Go(7)).unwrap();
    assert_eq!(
        router.update(route),
        (Some(0), Some(NavigationError::IndexOutOfRange { index: 7, len: 3 }))
    );
    assert_eq!(router.current(), Some(2));
}

#[test]
fn navigation_options_reach_the_page() {
    let (mut router, log) = router();
    router
        .navigate_with(&TypeId::of::<Kept>(), "Kept", 9)
        .unwrap();
    assert_eq!(take(&log), ["build 1 0", "enter 1", "navigate 1 9"]);
    let nav = Navigation::to_target(TypeId::of::<Kept>(), "Kept", Some(4));
    assert_eq!(router.update(RouteMessage::from(nav)), (None, None));
    assert_eq!(take(&log), ["navigate 1 4"]);
}

#[test]
fn navigating_to_the_current_page_adds_no_history_entry() {
    let (mut router, _) = router();
    go::<Counter>(&mut router).unwrap();
    go::<Counter>(&mut router).unwrap();
    assert!(!router.can_go_back());
    router.replace(&TypeId::of::<Third>(), "Third").unwrap();
    assert_eq!(router.current(), Some(2));
    assert!(!router.can_go_back(), "replace swapped the only entry");
}

#[test]
fn the_history_length_is_configurable() {
    let mut router = R::new(()).history_len(2).mouse_navigation(false);
    assert!(!router.mouse_navigation_enabled());
    let log: Log = Rc::new(RefCell::new(Vec::new()));
    for (i, name) in ["a", "b", "c"].iter().enumerate() {
        let key = match i {
            0 => TypeId::of::<Counter>(),
            1 => TypeId::of::<Kept>(),
            _ => TypeId::of::<Third>(),
        };
        router.add(key, (*name).into(), Lifecycle::Drop, Factory { log: log.clone() });
    }
    for i in 0..3 {
        router.navigate_index(i).unwrap();
    }
    assert_eq!(router.back(), Some(1));
    assert_eq!(router.back(), None, "only two entries are kept");
}
