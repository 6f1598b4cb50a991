//! The messages a router speaks.
//!
//! The payloads are generic: a page message carries an `M`, navigation
//! options an `O`. A host that erases its page types picks a type-erased
//! `M`/`O`; the routing decisions made here never look inside them.

use std::any::TypeId;
use vstd::prelude::*;

verus! {

/// The identity of a page type. Opaque: only compared for equality.
#[verifier::external_type_specification]
#[verifier::external_body]
pub struct ExTypeId(TypeId);

/// `TypeId`'s `clone` (reached through the derived `Clone` of
/// [`Navigation`]): `TypeId` is `Copy`, and its derived `clone` returns the
/// same value.
pub assume_specification[ <TypeId as Clone>::clone ](id: &TypeId) -> (copy: TypeId)
    ensures
        copy == *id,
;

/// `TypeId`'s `==`: two ids are equal exactly when they identify the same
/// type, so the claim is that the executable comparison agrees with
/// identity of the two values.
#[verifier::external_body]
pub(crate) fn same_type(a: &TypeId, b: &TypeId) -> (same: bool)
    ensures
        same == (*a == *b),
{
    *a == *b
}

/// A navigation request.
#[derive(Debug, Clone)]
#[non_exhaustive]
pub enum Navigation<O> {
    /// Show the page of type `target` and record it in the history.
    #[non_exhaustive]
    To {
        /// The page type.
        target: TypeId,
        /// The page type's name; diagnostics only.
        page_type: &'static str,
        /// Options for the page's `on_navigate`.
        options: Option<O>,
    },
    /// Show the page at this index and record it in the history.
    Index(usize),
    /// One step back in the history.
    Back,
    /// One step forward in the history.
    Forward,
    /// Show the page of type `target`, replacing the current history entry.
    #[non_exhaustive]
    Replace {
        /// The page type.
        target: TypeId,
        /// The page type's name; diagnostics only.
        page_type: &'static str,
    },
}

impl<O> Navigation<O> {
    /// Navigate to the page of type `target`, optionally with options for
    /// its `on_navigate`.
    pub fn to_target(target: TypeId, page_type: &'static str, options: Option<O>) -> (nav: Self)
        ensures
            nav == (Navigation::To { target, page_type, options }),
    {
        Navigation::To { target, page_type, options }
    }

    /// Navigate to the page of type `target` without adding a history entry.
    pub fn replace_target(target: TypeId, page_type: &'static str) -> (nav: Self)
        ensures
            nav == (Navigation::<O>::Replace { target, page_type }),
    {
        Navigation::Replace { target, page_type }
    }

    /// Navigate to the page at `index`.
    pub fn index(index: usize) -> (nav: Self)
        ensures
            nav == Navigation::<O>::Index(index),
    {
        Navigation::Index(index)
    }

    /// One step back.
    pub fn back() -> (nav: Self)
        ensures
            nav == Navigation::<O>::Back,
    {
        Navigation::Back
    }

    /// One step forward.
    pub fn forward() -> (nav: Self)
        ensures
            nav == Navigation::<O>::Forward,
    {
        Navigation::Forward
    }
}

/// A message addressed to one page *instance* of a router: the page index
/// and the generation of the instance that produced it. Its `Debug` output
/// shows the page, the generation and the message through the message's
/// own `Debug`; a host that erases its messages prints only their type.
#[derive(Debug, Clone)]
pub struct PageMessage<M> {
    page_id: usize,
    generation: u64,
    message: M,
}

impl<M> PageMessage<M> {
    /// The page index this message is for.
    pub closed spec fn page_id_spec(&self) -> usize {
        self.page_id
    }

    /// The generation of the instance this message is for.
    pub closed spec fn generation_spec(&self) -> u64 {
        self.generation
    }

    /// The message itself.
    pub closed spec fn inner_spec(&self) -> M {
        self.message
    }

    /// Addresses `message` to instance `generation` of page `page_id`.
    pub fn new(page_id: usize, generation: u64, message: M) -> (m: Self)
        ensures
            m.page_id_spec() == page_id,
            m.generation_spec() == generation,
            m.inner_spec() == message,
    {
        PageMessage { page_id, generation, message }
    }

    /// Index of the page this message is for.
    pub fn page_id(&self) -> (id: usize)
        ensures
            id == self.page_id_spec(),
    {
        self.page_id
    }

    /// Generation of the page instance this message is for.
    pub fn generation(&self) -> (generation: u64)
        ensures
            generation == self.generation_spec(),
    {
        self.generation
    }

    /// The message itself.
    pub fn inner(&self) -> (inner: &M)
        ensures
            *inner == self.inner_spec(),
    {
        &self.message
    }
}

/// The message type a router speaks.
#[derive(Debug, Clone)]
#[non_exhaustive]
pub enum RouteMessage<M, O> {
    /// A message for one page instance.
    Page(PageMessage<M>),
    /// A navigation request.
    Navigate(Navigation<O>),
}

impl<M, O> From<Navigation<O>> for RouteMessage<M, O> {
    /// Wraps a navigation request.
    fn from(navigation: Navigation<O>) -> (m: Self) {
        RouteMessage::Navigate(navigation)
    }
}

impl<M, O> vstd::std_specs::convert::FromSpecImpl<Navigation<O>> for RouteMessage<M, O> {
    open spec fn obeys_from_spec() -> bool {
        true
    }

    open spec fn from_spec(navigation: Navigation<O>) -> Self {
        RouteMessage::Navigate(navigation)
    }
}

/// What an input event that reaches the router is, as far as the mouse
/// back/forward navigation cares.
#[derive(Debug, Clone, Copy, PartialEq, Eq, Structural)]
pub enum PointerPress {
    /// The mouse's back button was pressed.
    Back,
    /// The mouse's forward button was pressed.
    Forward,
    /// Any other event.
    Other,
}

/// The navigation the mouse's back and forward buttons ask for; nothing for
/// an event a widget already captured, or for any other event.
pub open spec fn mouse_navigation_spec<M, O>(press: PointerPress, captured: bool) -> Option<
    RouteMessage<M, O>,
> {
    if captured {
        None
    } else {
        match press {
            PointerPress::Back => Some(RouteMessage::Navigate(Navigation::Back)),
            PointerPress::Forward => Some(RouteMessage::Navigate(Navigation::Forward)),
            PointerPress::Other => None,
        }
    }
}

/// Maps a mouse back/forward press to a navigation, honouring capture.
pub fn mouse_navigation<M, O>(press: PointerPress, captured: bool) -> (message: Option<
    RouteMessage<M, O>,
>)
    ensures
        message == mouse_navigation_spec::<M, O>(press, captured),
{
    if captured {
        return None;
    }
    match press {
        PointerPress::Back => Some(RouteMessage::Navigate(Navigation::Back)),
        PointerPress::Forward => Some(RouteMessage::Navigate(Navigation::Forward)),
        PointerPress::Other => None,
    }
}

} // verus!
