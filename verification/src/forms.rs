//! What a browser form sends: a new conversation's name, or a prompt together with
//! the headers of the page it was sent from.

use crate::error::Error;
use crate::ident::{parse_id, uuid_of};
use crate::models::{PromptSubmission, PromptSubmissionView};
use vstd::prelude::*;

verus! {

/// The form that asks for a new conversation.
#[derive(Debug, PartialEq, Eq)]
pub struct NewConversationForm {
    pub conversation_name: String,
}

impl Clone for NewConversationForm {
    fn clone(&self) -> (r: Self)
        ensures
            r.conversation_name@ == self.conversation_name@,
    {
        NewConversationForm { conversation_name: self.conversation_name.clone() }
    }
}

/// The value of a header of a form message.
#[derive(Debug, PartialEq, Eq)]
pub enum HeaderValue {
    /// A text.
    Text(String),
    /// Something that is no text: a number, a list, nothing.
    Other,
}

pub ghost enum HeaderValueView {
    Text(Seq<char>),
    Other,
}

impl View for HeaderValue {
    type V = HeaderValueView;

    open spec fn view(&self) -> HeaderValueView {
        match self {
            HeaderValue::Text(text) => HeaderValueView::Text(text@),
            HeaderValue::Other => HeaderValueView::Other,
        }
    }
}

/// One header: a name and its value.
#[derive(Debug)]
struct Header {
    name: String,
    value: HeaderValue,
}

/// The headers of a form message: a map from names to values. No name occurs twice.
#[derive(Debug)]
pub struct Headers {
    entries: Vec<Header>,
}

/// Whether no two of the entries have one name.
spec fn distinct(entries: Seq<Header>) -> bool {
    forall|i: int, j: int|
        0 <= i < j < entries.len() ==> (#[trigger] entries[i]).name@ != (#[trigger] entries[j]).name@
}

/// Whether an entry is named `name`.
spec fn named(entries: Seq<Header>, name: Seq<char>) -> bool {
    exists|i: int| 0 <= i < entries.len() && (#[trigger] entries[i]).name@ == name
}

/// The place of an entry named `name`.
spec fn place(entries: Seq<Header>, name: Seq<char>) -> int {
    choose|i: int| 0 <= i < entries.len() && (#[trigger] entries[i]).name@ == name
}

/// The entries as a map.
spec fn as_map(entries: Seq<Header>) -> Map<Seq<char>, HeaderValueView> {
    Map::new(
        |name: Seq<char>| named(entries, name),
        |name: Seq<char>| entries[place(entries, name)].value@,
    )
}

/// Among entries with distinct names, each name maps to the value of its entry.
proof fn lemma_entry(entries: Seq<Header>, i: int)
    requires
        distinct(entries),
        0 <= i < entries.len(),
    ensures
        as_map(entries).contains_key(entries[i].name@),
        as_map(entries)[entries[i].name@] == entries[i].value@,
{
    let name = entries[i].name@;
    let found = place(entries, name);
    assert(0 <= found < entries.len() && entries[found].name@ == name);
    if found < i {
        assert(entries[found].name@ != entries[i].name@);
    } else if i < found {
        assert(entries[i].name@ != entries[found].name@);
    }
}

/// One more entry, under a name that no entry has, is one more pair in the map.
proof fn lemma_pushed(entries: Seq<Header>, header: Header)
    requires
        distinct(entries),
        !named(entries, header.name@),
    ensures
        distinct(entries.push(header)),
        as_map(entries.push(header)) == as_map(entries).insert(header.name@, header.value@),
{
    let more = entries.push(header);
    let last = entries.len() as int;
    assert forall|i: int, j: int| 0 <= i < j < more.len() implies (#[trigger] more[i]).name@ != (
    #[trigger] more[j]).name@ by {
        if j == last {
            assert(more[i] == entries[i]);
        } else {
            assert(more[i] == entries[i] && more[j] == entries[j]);
        }
    }
    assert forall|name: Seq<char>| #[trigger]
        as_map(more).contains_key(name) == as_map(entries).insert(
            header.name@,
            header.value@,
        ).contains_key(name) by {
        if named(entries, name) {
            let i = place(entries, name);
            assert(more[i] == entries[i]);
        }
        if named(more, name) && name != header.name@ {
            let i = place(more, name);
            assert(more[i] == entries[i]);
        }
        assert(more[last] == header);
    }
    assert forall|name: Seq<char>| as_map(more).contains_key(name) implies #[trigger] as_map(
        more,
    )[name] == as_map(entries).insert(header.name@, header.value@)[name] by {
        let i = place(more, name);
        lemma_entry(more, i);
        if i < last {
            assert(more[i] == entries[i]);
            lemma_entry(entries, i);
        }
    }
    assert(as_map(more) =~= as_map(entries).insert(header.name@, header.value@));
}

/// Without one entry, the map is without that entry's name.
proof fn lemma_removed(entries: Seq<Header>, at: int)
    requires
        distinct(entries),
        0 <= at < entries.len(),
    ensures
        distinct(entries.remove(at)),
        !named(entries.remove(at), entries[at].name@),
        as_map(entries.remove(at)) == as_map(entries).remove(entries[at].name@),
{
    let less = entries.remove(at);
    let gone = entries[at].name@;
    assert forall|i: int| 0 <= i < less.len() implies #[trigger] less[i] == entries[if i < at {
        i
    } else {
        i + 1
    }] by {}
    assert forall|i: int, j: int| 0 <= i < j < less.len() implies (#[trigger] less[i]).name@ != (
    #[trigger] less[j]).name@ by {
        let a = if i < at { i } else { i + 1 };
        let b = if j < at { j } else { j + 1 };
        assert(entries[a].name@ != entries[b].name@);
    }
    assert(!named(less, gone)) by {
        if named(less, gone) {
            let i = place(less, gone);
            let a = if i < at { i } else { i + 1 };
            if a < at {
                assert(entries[a].name@ != entries[at].name@);
            } else {
                assert(entries[at].name@ != entries[a].name@);
            }
        }
    }
    assert forall|name: Seq<char>| #[trigger]
        as_map(less).contains_key(name) == as_map(entries).remove(gone).contains_key(name) by {
        if named(less, name) {
            let i = place(less, name);
            let a = if i < at { i } else { i + 1 };
            assert(entries[a].name@ == name);
        }
        if named(entries, name) && name != gone {
            let a = place(entries, name);
            let i = if a < at { a } else { a - 1 };
            assert(less[i] == entries[a]);
        }
    }
    assert forall|name: Seq<char>| as_map(less).contains_key(name) implies #[trigger] as_map(
        less,
    )[name] == as_map(entries).remove(gone)[name] by {
        let i = place(less, name);
        let a = if i < at { i } else { i + 1 };
        lemma_entry(less, i);
        lemma_entry(entries, a);
    }
    assert(as_map(less) =~= as_map(entries).remove(gone));
}

impl View for Headers {
    type V = Map<Seq<char>, HeaderValueView>;

    closed spec fn view(&self) -> Map<Seq<char>, HeaderValueView> {
        as_map(self.entries@)
    }
}

impl Headers {
    #[verifier::type_invariant]
    spec fn each_name_once(&self) -> bool {
        distinct(self.entries@)
    }

    /// No headers.
    pub fn new() -> (r: Self)
        ensures
            r@ == Map::<Seq<char>, HeaderValueView>::empty(),
    {
        let r = Headers { entries: Vec::new() };
        assert(r@ =~= Map::<Seq<char>, HeaderValueView>::empty());
        r
    }

    /// The place of the entry named `name`, if there is one.
    fn find(&self, name: &str) -> (r: Option<usize>)
        ensures
            match r {
                Some(i) => i < self.entries@.len() && self.entries@[i as int].name@ == name@,
                None => !named(self.entries@, name@),
            },
    {
        let wanted: String = name.to_owned();
        let mut i: usize = 0;
        while i < self.entries.len()
            invariant
                i <= self.entries.len(),
                wanted@ == name@,
                forall|j: int| 0 <= j < i ==> (#[trigger] self.entries@[j]).name@ != name@,
            decreases self.entries.len() - i,
        {
            if self.entries[i].name == wanted {
                return Some(i);
            }
            i += 1;
        }
        None
    }

    /// The value under `name`, if there is one.
    pub fn get(&self, name: &str) -> (r: Option<&HeaderValue>)
        ensures
            match r {
                Some(value) => self@.contains_key(name@) && self@[name@] == value@,
                None => !self@.contains_key(name@),
            },
    {
        proof {
            use_type_invariant(self);
        }
        match self.find(name) {
            Some(i) => {
                proof {
                    lemma_entry(self.entries@, i as int);
                }
                Some(&self.entries[i].value)
            },
            None => None,
        }
    }

    /// Puts `value` under `name`, in place of the value that was there, if one was,
    /// and gives that one back.
    pub fn insert(&mut self, name: String, value: HeaderValue) -> (r: Option<HeaderValue>)
        ensures
            final(self)@ == old(self)@.insert(name@, value@),
            match r {
                Some(before) => old(self)@.contains_key(name@) && old(self)@[name@] == before@,
                None => !old(self)@.contains_key(name@),
            },
    {
        proof {
            use_type_invariant(&*self);
        }
        let header = Header { name, value };
        let found = self.find(header.name.as_str());
        let mut entries: Vec<Header> = Vec::new();
        core::mem::swap(&mut entries, &mut self.entries);
        let before = match found {
            Some(i) => {
                proof {
                    lemma_entry(entries@, i as int);
                    lemma_removed(entries@, i as int);
                    lemma_pushed(entries@.remove(i as int), header);
                    assert(old(self)@.remove(header.name@).insert(header.name@, header.value@)
                        =~= old(self)@.insert(header.name@, header.value@));
                }
                Some(entries.remove(i).value)
            },
            None => {
                proof {
                    lemma_pushed(entries@, header);
                }
                None
            },
        };
        entries.push(header);
        self.entries = entries;
        before
    }

    /// The number of headers.
    pub fn len(&self) -> (r: usize)
        ensures
            r == self@.len(),
    {
        proof {
            use_type_invariant(self);
            lemma_len(self.entries@);
        }
        self.entries.len()
    }
}

/// Entries with distinct names make a map of as many pairs.
proof fn lemma_len(entries: Seq<Header>)
    requires
        distinct(entries),
    ensures
        as_map(entries).dom().finite(),
        as_map(entries).len() == entries.len(),
    decreases entries.len(),
{
    if entries.len() == 0 {
        assert(as_map(entries) =~= Map::<Seq<char>, HeaderValueView>::empty());
    } else {
        let last = entries.len() - 1;
        let less = entries.remove(last);
        lemma_removed(entries, last);
        lemma_len(less);
        lemma_pushed(less, entries[last]);
        assert(less.push(entries[last]) =~= entries);
    }
}

/// A prompt as a form sends it. The conversation is not named: it is the one whose
/// page the form was sent from, and the header `HX-Current-URL` holds the address of
/// that page.
#[allow(non_snake_case)]
#[derive(Debug)]
pub struct UserPromptFormMessage {
    pub user_prompt: String,
    pub HEADERS: Headers,
}

/// The path of the URL that a text writes down, as `url::Url::parse` and `Url::path`
/// read it, or `None` where the text is no absolute URL.
pub uninterp spec fn path_of(url: Seq<char>) -> Option<Seq<char>>;

/// Trusted: `url::Url::parse`, then `Url::path` on the URL that was read. The parser
/// looks at the text alone, so the same text always gives the same path.
#[verifier::external_body]
fn url_path(url: &str) -> (r: Option<String>)
    ensures
        match r {
            Some(path) => path_of(url@) == Some(path@),
            None => path_of(url@) is None,
        },
{
    match url::Url::parse(url) {
        Ok(parsed) => Some(parsed.path().to_owned()),
        Err(_) => None,
    }
}

/// Trusted: `str::strip_prefix` with a string as the pattern. Where `text` begins
/// with `prefix` the result is what follows it, and else there is none.
#[verifier::external_body]
fn strip_prefix<'a>(text: &'a str, prefix: &str) -> (r: Option<&'a str>)
    ensures
        match r {
            Some(rest) => text@ == prefix@ + rest@,
            None => !prefix@.is_prefix_of(text@),
        },
{
    text.strip_prefix(prefix)
}

/// The text under `name`, if there is a value under it and the value is a text.
pub open spec fn header_text(headers: Map<Seq<char>, HeaderValueView>, name: Seq<char>) -> Option<
    Seq<char>,
> {
    if headers.contains_key(name) {
        match headers[name] {
            HeaderValueView::Text(text) => Some(text),
            HeaderValueView::Other => None,
        }
    } else {
        None
    }
}

/// The conversation that a path of the form `/c/` and a UUID names.
pub open spec fn conversation_in_path(path: Seq<char>) -> Option<u128> {
    if "/c/"@.is_prefix_of(path) {
        uuid_of(path.skip("/c/"@.len() as int))
    } else {
        None
    }
}

/// The conversation whose page has the address `url`.
pub open spec fn conversation_at(url: Option<Seq<char>>) -> Option<u128> {
    match url {
        Some(url) => match path_of(url) {
            Some(path) => conversation_in_path(path),
            None => None,
        },
        None => None,
    }
}

/// The conversation that a path of the form `/c/` and a UUID names.
pub fn conversation_of_path(path: &str) -> (r: Option<u128>)
    ensures
        r == conversation_in_path(path@),
{
    match strip_prefix(path, "/c/") {
        Some(rest) => {
            proof {
                let prefix = "/c/"@;
                assert(prefix =~= path@.subrange(0, prefix.len() as int));
                assert(rest@ =~= path@.skip(prefix.len() as int));
            }
            parse_id(rest)
        },
        None => None,
    }
}

impl UserPromptFormMessage {
    /// The address of the page that the form was sent from, if the headers give it.
    pub fn hx_current_url(&self) -> (r: Option<&str>)
        ensures
            match r {
                Some(url) => header_text(self.HEADERS@, "HX-Current-URL"@) == Some(url@),
                None => header_text(self.HEADERS@, "HX-Current-URL"@) is None,
            },
    {
        match self.HEADERS.get("HX-Current-URL") {
            Some(HeaderValue::Text(text)) => Some(text.as_str()),
            _ => None,
        }
    }

    /// The conversation that the prompt belongs to. A message whose headers do not
    /// lead to one breaks the protocol.
    pub fn conversation_id(&self) -> (r: Result<u128, Error>)
        ensures
            match conversation_at(header_text(self.HEADERS@, "HX-Current-URL"@)) {
                Some(id) => r == Ok::<u128, Error>(id),
                None => r == Err::<u128, Error>(Error::ConnectionProtocolError),
            },
    {
        let found = match self.hx_current_url() {
            Some(url) => match url_path(url) {
                Some(path) => conversation_of_path(path.as_str()),
                None => None,
            },
            None => None,
        };
        match found {
            Some(id) => Ok(id),
            None => Err(Error::ConnectionProtocolError),
        }
    }

    /// The message as a submission: its prompt, for the conversation that its headers
    /// lead to.
    pub fn into_submission(self) -> (r: Result<PromptSubmission, Error>)
        ensures
            match conversation_at(header_text(self.HEADERS@, "HX-Current-URL"@)) {
                Some(id) => r is Ok && r->Ok_0@ == (PromptSubmissionView {
                    content: self.user_prompt@,
                    conversation_id: id,
                }),
                None => r == Err::<PromptSubmission, Error>(Error::ConnectionProtocolError),
            },
    {
        match self.conversation_id() {
            Ok(id) => Ok(PromptSubmission { content: self.user_prompt, conversation_id: id }),
            Err(error) => Err(error),
        }
    }
}

} // verus!
