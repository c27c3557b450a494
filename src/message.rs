use std::any::Any;
use vstd::prelude::*;

verus! {

/// An owned value behind `dyn Any`, kept opaque: std's `downcast` decides
/// what narrowing yields.
#[verifier::external_body]
struct AnyBox(Box<dyn Any>);

/// A borrowed value behind `dyn Any`, kept opaque: std's `downcast_ref`
/// decides what narrowing yields.
#[verifier::external_body]
struct AnyRef<'a>(&'a dyn Any);

impl AnyBox {
    /// Relies on `Box::new` coercing an owned `T` to `Box<dyn Any>`.
    #[verifier::external_body]
    fn new<T: 'static>(v: T) -> (r: AnyBox) {
        AnyBox(Box::new(v))
    }

    /// Relies on `Box::<dyn Any>::downcast`: the value iff its type is `T`.
    #[verifier::external_body]
    fn downcast<T: 'static>(self) -> (r: Option<T>) {
        match self.0.downcast::<T>() {
            Ok(boxed) => Some(*boxed),
            Err(_) => None,
        }
    }
}

impl<'a> AnyRef<'a> {
    /// Relies on a `&T` coercing to `&dyn Any`.
    #[verifier::external_body]
    fn new<T: 'static>(v: &'a T) -> (r: AnyRef<'a>) {
        AnyRef(v)
    }

    /// Relies on `<dyn Any>::downcast_ref`: the value iff its type is `T`.
    #[verifier::external_body]
    fn downcast_ref<T: 'static>(self) -> (r: Option<&'a T>) {
        self.0.downcast_ref::<T>()
    }

    /// Relies on `<dyn Any>::is`: whether the value has type `T`.
    #[verifier::external_body]
    fn is<T: 'static>(self) -> (r: bool) {
        self.0.is::<T>()
    }
}

/// The slot behind a [`Content`]: the value sits in an `Option` so that it
/// can be moved out from behind the trait object.
trait Payload: Send {
    fn take_any(&mut self) -> AnyBox;

    fn peek_any(&self) -> AnyRef<'_>;
}

impl<T: Send + 'static> Payload for Option<T> {
    fn take_any(&mut self) -> AnyBox {
        AnyBox::new(self.take())
    }

    fn peek_any(&self) -> AnyRef<'_> {
        AnyRef::new(self)
    }
}

/// A payload whose type is erased at the interface and kept as a runtime
/// type identity, fixed when the envelope is made.
pub struct Content(Box<dyn Payload>);

impl Content {
    /// Erases the type of `obj`.
    pub fn from<T: Send + 'static>(obj: T) -> Content {
        Content(Box::new(Some(obj)))
    }

    /// Consumes the envelope and yields the value iff its type is `T`; on a
    /// mismatch the value is dropped.
    pub fn into<T: 'static>(self) -> Option<T> {
        let mut slot = self.0;
        match slot.take_any().downcast::<Option<T>>() {
            Some(v) => v,
            None => None,
        }
    }

    /// Borrows the value iff its type is `T`; the envelope stays intact.
    pub fn as_ref<T: 'static>(&self) -> Option<&T> {
        match self.0.peek_any().downcast_ref::<Option<T>>() {
            Some(v) => v.as_ref(),
            None => None,
        }
    }

    /// Whether the value has type `T`.
    pub fn is<T: 'static>(&self) -> bool {
        self.0.peek_any().is::<Option<T>>()
    }
}

/// Wraps a value into a [`Content`].
pub trait IntoContent: Sized {
    fn into_content(self) -> Content;
}

impl<T: Send + 'static> IntoContent for T {
    fn into_content(self) -> Content {
        Content::from(self)
    }
}

/// What travels on the forward queue of a duplex channel.
pub enum Message {
    /// Fire-and-forget.
    Simple(Content),
    /// A request: exactly one reply is pushed for it.
    WithReply(Content),
    /// The sentinel that ends an actor's receive loop.
    Disconnect,
}

impl Message {
    /// The payload, if there is one.
    pub open spec fn payload(self) -> Option<Content> {
        match self {
            Message::Simple(c) => Some(c),
            Message::WithReply(c) => Some(c),
            Message::Disconnect => None,
        }
    }

    /// Narrows the payload to `T`; the sentinel carries none.
    pub fn into<T: 'static>(self) -> (r: Option<T>)
        ensures
            self.payload() is None ==> r is None,
    {
        match self {
            Message::Simple(c) => c.into(),
            Message::WithReply(c) => c.into(),
            Message::Disconnect => None,
        }
    }

    /// Borrows the payload as a `T`; the sentinel carries none.
    pub fn as_ref<T: 'static>(&self) -> (r: Option<&T>)
        ensures
            self.payload() is None ==> r is None,
    {
        match self {
            Message::Simple(c) => c.as_ref(),
            Message::WithReply(c) => c.as_ref(),
            Message::Disconnect => None,
        }
    }
}

/// Wraps a value into a fire-and-forget or a request [`Message`].
pub trait IntoMessage: Sized {
    fn into_msg(self) -> Message;

    fn into_msg_with_reply(self) -> Message;
}

impl<T: Send + 'static> IntoMessage for T {
    fn into_msg(self) -> (r: Message)
        ensures
            r is Simple,
    {
        Message::Simple(Content::from(self))
    }

    fn into_msg_with_reply(self) -> (r: Message)
        ensures
            r is WithReply,
    {
        Message::WithReply(Content::from(self))
    }
}

} // verus!
