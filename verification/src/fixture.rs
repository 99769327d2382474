use vstd::prelude::*;
use vstd::string::StringExecFns;
use crate::message::{Message, MessageProvider, MessageView};

verus! {

/// Sender of the seed message at index `k`; the three senders repeat in a
/// cycle of three.
pub open spec fn seed_from(k: int) -> Seq<char> {
    if k % 3 == 0 {
        "bob@bob.me"@
    } else if k % 3 == 1 {
        "alice@alice.me"@
    } else {
        "derek@dcn.dev"@
    }
}

pub open spec fn seed_subject(k: int) -> Seq<char> {
    if k % 3 == 0 {
        "Hi"@
    } else if k % 3 == 1 {
        "TPS Reports"@
    } else {
        "Big message"@
    }
}

pub open spec fn seed_body(k: int) -> Seq<char> {
    if k % 3 == 0 {
        "Hello there"@
    } else if k % 3 == 1 {
        "So uhh...if you could just get those done\nyeahh....that'd be greaaaat."@
    } else {
        "Lorem ipsum dolor sit amet, consectetur adipiscing elit. Sed do eiusmod tempor incididunt ut labore et dolore magna aliqua. Ut enim ad minim veniam, quis nostrud exercitation ullamco laboris nisi ut aliquip ex ea commodo consequat. Duis aute irure dolor in reprehenderit in voluptate velit esse cillum dolore eu fugiat nulla pariatur. Excepteur sint occaecat cupidatat non proident, sunt in culpa qui officia deserunt mollit anim id est laborum.\n\nSed ut perspiciatis unde omnis iste natus error sit voluptatem accusantium doloremque laudantium, totam rem aperiam, eaque ipsa quae ab illo inventore veritatis et quasi architecto beatae vitae dicta sunt explicabo. Nemo enim ipsam voluptatem quia voluptas sit aspernatur aut odit aut fugit, sed quia consequuntur magni dolores eos qui ratione voluptatem sequi nesciunt. Neque porro quisquam est, qui dolorem ipsum quia dolor sit amet, consectetur, adipisci velit.\n"@
    }
}

/// The seed message at index `k`: ids count from 1, everything is addressed
/// to the local user, and the three sample messages repeat in a cycle.
pub open spec fn seed_view(k: int) -> MessageView {
    MessageView {
        id: (k + 1) as u64,
        from: seed_from(k),
        to: "me@me.me"@,
        subject: seed_subject(k),
        body: seed_body(k),
    }
}

/// How many messages the fixture is seeded with.
pub open spec fn seed_count() -> int {
    12
}

/// An in-memory message store seeded with fixed sample messages. It answers
/// synchronously; a caller that wants the asynchronous protocol runs it on a
/// background task and forwards the results as application events. It has no
/// transport, so every send fails.
#[derive(Debug)]
pub struct DefaultMessageProvider {
    messages: Vec<Message>,
}

impl View for DefaultMessageProvider {
    type V = Seq<MessageView>;

    closed spec fn view(&self) -> Seq<MessageView> {
        self.messages.deep_view()
    }
}

fn seed_message(k: usize) -> (m: Message)
    requires
        k < seed_count(),
    ensures
        m@ == seed_view(k as int),
{
    let id = (k as u64) + 1;
    let r = k % 3;
    if r == 0 {
        Message::new(
            id,
            "bob@bob.me".to_owned(),
            "me@me.me".to_owned(),
            "Hi".to_owned(),
            "Hello there".to_owned(),
        )
    } else if r == 1 {
        Message::new(
            id,
            "alice@alice.me".to_owned(),
            "me@me.me".to_owned(),
            "TPS Reports".to_owned(),
            "So uhh...if you could just get those done\nyeahh....that'd be greaaaat.".to_owned(),
        )
    } else {
        Message::new(
            id,
            "derek@dcn.dev".to_owned(),
            "me@me.me".to_owned(),
            "Big message".to_owned(),
            "Lorem ipsum dolor sit amet, consectetur adipiscing elit. Sed do eiusmod tempor incididunt ut labore et dolore magna aliqua. Ut enim ad minim veniam, quis nostrud exercitation ullamco laboris nisi ut aliquip ex ea commodo consequat. Duis aute irure dolor in reprehenderit in voluptate velit esse cillum dolore eu fugiat nulla pariatur. Excepteur sint occaecat cupidatat non proident, sunt in culpa qui officia deserunt mollit anim id est laborum.\n\nSed ut perspiciatis unde omnis iste natus error sit voluptatem accusantium doloremque laudantium, totam rem aperiam, eaque ipsa quae ab illo inventore veritatis et quasi architecto beatae vitae dicta sunt explicabo. Nemo enim ipsam voluptatem quia voluptas sit aspernatur aut odit aut fugit, sed quia consequuntur magni dolores eos qui ratione voluptatem sequi nesciunt. Neque porro quisquam est, qui dolorem ipsum quia dolor sit amet, consectetur, adipisci velit.\n".to_owned(),
        )
    }
}

impl DefaultMessageProvider {
    /// A store holding exactly the seed messages, ids 1 up to the seed
    /// count, ascending.
    pub fn new() -> (r: Self)
        ensures
            r@.len() == seed_count(),
            forall|k: int| 0 <= k < seed_count() ==> r@[k] == seed_view(k),
    {
        let mut v: Vec<Message> = Vec::new();
        let mut k: usize = 0;
        while k < 12
            invariant
                k <= 12,
                v.deep_view().len() == k,
                forall|j: int| 0 <= j < k ==> v.deep_view()[j] == seed_view(j),
            decreases 12 - k,
        {
            let m = seed_message(k);
            v.push(m);
            k = k + 1;
        }
        DefaultMessageProvider { messages: v }
    }

    /// The fixture needs no setup.
    pub fn init(&mut self) -> (r: Result<(), String>)
        ensures
            r is Ok,
            final(self)@ == old(self)@,
    {
        Ok(())
    }
}

impl MessageProvider for DefaultMessageProvider {
    fn get_messages(&self) -> (r: Vec<Message>)
        ensures
            r.deep_view() == self@,
    {
        let n = self.messages.len();
        let mut out: Vec<Message> = Vec::new();
        let mut k: usize = 0;
        while k < n
            invariant
                k <= n,
                n == self.messages@.len(),
                out@ == self.messages@.take(k as int),
            decreases n - k,
        {
            out.push(self.messages[k].clone());
            proof {
                assert(out@ =~= self.messages@.take(k + 1 as int));
            }
            k = k + 1;
        }
        proof {
            assert(self.messages@.take(n as int) =~= self.messages@);
            assert(out.deep_view() =~= self@);
        }
        out
    }

    fn get_message(&self, id: u64) -> (r: Option<String>)
        ensures
            ({
                let k: int = if id == 0 {
                    0
                } else {
                    id - 1
                };
                match r {
                    Some(b) => k < self@.len() && b@ == self@[k].body,
                    None => k >= self@.len(),
                }
            }),
    {
        let k = if id == 0 {
            0
        } else {
            id - 1
        };
        if k < self.messages.len() as u64 {
            let i = k as usize;
            Some(self.messages[i].body().to_owned())
        } else {
            None
        }
    }

    fn send_message(&self, message: &Message) -> (r: Option<String>)
        ensures
            match r {
                Some(e) => e@ == "failed sending to "@ + message@.to,
                None => false,
            },
    {
        let mut e = "failed sending to ".to_owned();
        e.append(message.to());
        Some(e)
    }
}

} // verus!
