use vstd::prelude::*;

verus! {

/// One unit of data relayed to the broker: a single string payload.
#[derive(Debug)]
pub struct Message {
    pub data: String,
}

impl Message {
    /// A message that carries `data`.
    pub fn new(data: String) -> (m: Message)
        ensures
            m.data@ == data@,
    {
        Message { data }
    }

    /// The message's payload text.
    pub fn data(&self) -> (r: &str)
        ensures
            r@ == self.data@,
    {
        self.data.as_str()
    }
}

/// What a batch says: the text of each of its messages, in order.
pub open spec fn batch_texts(b: Seq<Message>) -> Seq<Seq<char>> {
    b.map_values(|m: Message| m.data@)
}

} // verus!
