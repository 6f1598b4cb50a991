use std::any::{Any, TypeId};
use std::fmt;

use auravibe::message::{mouse_navigation, Navigation, PageMessage, PointerPress, RouteMessage};

/// A type-erased value that prints its type name only, as a host erases
/// page messages and navigation options.
#[derive(Clone)]
struct Erased(std::sync::Arc<dyn Any + Send + Sync>, &'static str);

impl Erased {
    fn new<T: Any + Send + Sync>(value: T, name: &'static str) -> Self {
        Self(std::sync::Arc::new(value), name)
    }

    fn downcast<T: Any + Clone>(&self) -> Option<T> {
        self.0.downcast_ref::<T>().cloned()
    }
}

impl fmt::Debug for Erased {
    fn fmt(&self, f: &mut fmt::Formatter<'_>) -> fmt::Result {
        f.debug_tuple("Payload").field(&self.1).finish()
    }
}

struct Home;

#[test]
fn page_message_round_trips_and_debugs_without_the_value() {
    let message = PageMessage::new(3, 9, Erased::new(String::from("secret"), "alloc::string::String"));
    assert_eq!(message.page_id(), 3);
    assert_eq!(message.generation(), 9);
    assert_eq!(message.inner().downcast::<String>().as_deref(), Some("secret"));
    assert_eq!(message.clone().inner().downcast::<u8>(), None);
    let debug = format!("{message:?}");
    assert!(debug.contains("page_id: 3") && debug.contains("generation: 9"));
    assert!(!debug.contains("secret"));
}

#[test]
fn navigation_constructors_carry_the_target_name() {
    let Navigation::To {
        target,
        page_type,
        options,
        ..
    } = Navigation::to_target(
        TypeId::of::<Home>(),
        "message::Home",
        Some(Erased::new(1u8, "u8")),
    )
    else {
        panic!("expected To");
    };
    assert_eq!(target, TypeId::of::<Home>());
    assert!(page_type.ends_with("Home"));
    assert_eq!(options.unwrap().downcast::<u8>(), Some(1));
    assert!(matches!(
        Navigation::<Erased>::replace_target(TypeId::of::<Home>(), "Home"),
        Navigation::Replace { .. }
    ));
    assert!(matches!(
        RouteMessage::<Erased, Erased>::from(Navigation::back()),
        RouteMessage::Navigate(Navigation::Back)
    ));
}

#[test]
fn index_and_forward_build_their_variants() {
    assert!(matches!(Navigation::<()>::index(4), Navigation::Index(4)));
    assert!(matches!(Navigation::<()>::forward(), Navigation::Forward));
}

#[test]
fn mouse_filter_honours_capture_and_maps_back_and_forward() {
    assert!(matches!(
        mouse_navigation::<(), ()>(PointerPress::Back, false),
        Some(RouteMessage::Navigate(Navigation::Back))
    ));
    assert!(matches!(
        mouse_navigation::<(), ()>(PointerPress::Forward, false),
        Some(RouteMessage::Navigate(Navigation::Forward))
    ));
    assert!(mouse_navigation::<(), ()>(PointerPress::Back, true).is_none());
    assert!(mouse_navigation::<(), ()>(PointerPress::Other, false).is_none());
}

#[test]
fn a_cloned_navigation_keeps_its_target() {
    let nav = Navigation::<()>::to_target(TypeId::of::<Home>(), "message::Home", None);
    let Navigation::To { target, .. } = nav.clone() else {
        panic!("expected To");
    };
    assert_eq!(target, TypeId::of::<Home>());
    assert_ne!(target, TypeId::of::<Erased>());
}
