use vstd::prelude::*;

verus! {

/// Mathematical value of a [`Message`]: the identity and the four text
/// fields, each text as its sequence of characters.
#[verifier::ext_equal]
pub ghost struct MessageView {
    pub id: u64,
    pub from: Seq<char>,
    pub to: Seq<char>,
    pub subject: Seq<char>,
    pub body: Seq<char>,
}

/// A single mail message. The store assigns ids; a message is immutable once
/// stored, except that `body` may be filled in later when the store separates
/// list metadata from full-body fetches.
#[derive(Debug)]
pub struct Message {
    id: u64,
    from: String,
    to: String,
    subject: String,
    body: String,
}

impl View for Message {
    type V = MessageView;

    closed spec fn view(&self) -> MessageView {
        MessageView {
            id: self.id,
            from: self.from@,
            to: self.to@,
            subject: self.subject@,
            body: self.body@,
        }
    }
}

impl DeepView for Message {
    type V = MessageView;

    open spec fn deep_view(&self) -> MessageView {
        self.view()
    }
}

impl Clone for Message {
    fn clone(&self) -> (r: Self)
        ensures
            r == *self,
    {
        Message {
            id: self.id,
            from: self.from.clone(),
            to: self.to.clone(),
            subject: self.subject.clone(),
            body: self.body.clone(),
        }
    }
}

impl Message {
    pub fn new(id: u64, from: String, to: String, subject: String, body: String) -> (r: Self)
        ensures
            r@ == (MessageView { id, from: from@, to: to@, subject: subject@, body: body@ }),
    {
        Message { id, from, to, subject, body }
    }

    /// The empty message with the sentinel id 0, used before any message has
    /// been viewed.
    pub fn empty() -> (r: Self)
        ensures
            r@ == (MessageView {
                id: 0,
                from: Seq::<char>::empty(),
                to: Seq::<char>::empty(),
                subject: Seq::<char>::empty(),
                body: Seq::<char>::empty(),
            }),
    {
        Message {
            id: 0,
            from: String::new(),
            to: String::new(),
            subject: String::new(),
            body: String::new(),
        }
    }

    pub fn id(&self) -> (r: u64)
        ensures
            r == self@.id,
    {
        self.id
    }

    pub fn from(&self) -> (r: &str)
        ensures
            r@ == self@.from,
    {
        self.from.as_str()
    }

    pub fn to(&self) -> (r: &str)
        ensures
            r@ == self@.to,
    {
        self.to.as_str()
    }

    pub fn subject(&self) -> (r: &str)
        ensures
            r@ == self@.subject,
    {
        self.subject.as_str()
    }

    pub fn body(&self) -> (r: &str)
        ensures
            r@ == self@.body,
    {
        self.body.as_str()
    }

    pub fn set_id(&mut self, id: u64)
        ensures
            final(self)@ == (MessageView { id, ..old(self)@ }),
    {
        self.id = id;
    }

    pub fn set_from(&mut self, from: String)
        ensures
            final(self)@ == (MessageView { from: from@, ..old(self)@ }),
    {
        self.from = from;
    }

    pub fn set_to(&mut self, to: String)
        ensures
            final(self)@ == (MessageView { to: to@, ..old(self)@ }),
    {
        self.to = to;
    }

    pub fn set_subject(&mut self, subject: String)
        ensures
            final(self)@ == (MessageView { subject: subject@, ..old(self)@ }),
    {
        self.subject = subject;
    }

    pub fn set_body(&mut self, body: String)
        ensures
            final(self)@ == (MessageView { body: body@, ..old(self)@ }),
    {
        self.body = body;
    }
}

/// Contract of a message store. The store owns the authoritative collection;
/// callers receive copies. Implementations that answer asynchronously live
/// outside this crate and deliver their results as application events.
pub trait MessageProvider {
    /// All stored messages, ordered by ascending id.
    fn get_messages(&self) -> Vec<Message>;

    /// The full body of the message with the given id, or `None` when the
    /// store has no such message.
    fn get_message(&self, id: u64) -> Option<String>;

    /// Submit a message for delivery. `None` on success, or the reason the
    /// send failed.
    fn send_message(&self, message: &Message) -> Option<String>;
}

} // verus!
