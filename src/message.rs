use vstd::prelude::*;

verus! {

/// A published message: an immutable text body.
pub struct Message {
    body: String,
}

impl View for Message {
    type V = Seq<char>;

    closed spec fn view(&self) -> Seq<char> {
        self.body@
    }
}

impl Message {
    /// Builds a message holding a copy of `body`.
    pub fn new(body: &str) -> (r: Message)
        ensures
            r@ == body@,
    {
        Message { body: body.to_owned() }
    }

    /// The text of the message.
    pub fn body(&self) -> (r: &str)
        ensures
            r@ == self@,
    {
        self.body.as_str()
    }

    /// The text of the message, as it is displayed.
    pub fn to_text(&self) -> (r: String)
        ensures
            r@ == self@,
    {
        self.body.clone()
    }
}

} // verus!
