//! The payloads that are sent (`PullEdit`, `PullReq`), the pull requests that
//! come back (`Pull`), and how each is framed as JSON text.

use crate::json::{
    fits_parser_limits, json_quoted, json_shape, parse_top, quote, within_parser_limits, Shape,
    TopLevel,
};
use vstd::prelude::*;
use vstd::string::*;

verus! {

/// One pull request as the service represents it: the JSON text of one object.
pub struct Pull {
    pub json: String,
}

/// Why an operation produced no result.
#[derive(Debug)]
pub enum Error<E> {
    /// The transport failed; its failure, unchanged.
    Transport(E),
    /// The answer was not of the expected JSON shape.
    Decode,
}

/// `"key":value`, with the value written as a JSON string.
pub open spec fn member(key: Seq<char>, value: Seq<char>) -> Seq<char> {
    seq!['"'] + key + seq!['"', ':'] + json_quoted(value)
}

/// The member for `key` where a value is present, none where it is absent.
pub open spec fn optional_member(key: Seq<char>, value: Option<Seq<char>>) -> Seq<Seq<char>> {
    match value {
        Some(v) => seq![member(key, v)],
        None => seq![],
    }
}

/// The parts, separated by commas.
pub open spec fn joined(parts: Seq<Seq<char>>) -> Seq<char>
    decreases parts.len(),
{
    if parts.len() == 0 {
        seq![]
    } else if parts.len() == 1 {
        parts[0]
    } else {
        joined(parts.drop_last()) + seq![','] + parts.last()
    }
}

/// A JSON object made of the given members, in order.
pub open spec fn object_text(members: Seq<Seq<char>>) -> Seq<char> {
    seq!['{'] + joined(members) + seq!['}']
}

fn member_of(key: &str, value: &str) -> (r: String)
    ensures
        r@ == member(key@, value@),
{
    let mut r = String::from_str("\"");
    r.append(key);
    r.append("\":");
    let q = quote(value);
    r.append(q.as_str());
    proof {
        reveal_strlit("\"");
        reveal_strlit("\":");
        assert(r@ =~= member(key@, value@));
    }
    r
}

fn object_of(members: &Vec<String>) -> (r: String)
    ensures
        r@ == object_text(members@.map_values(|m: String| m@)),
{
    let ghost parts = members@.map_values(|m: String| m@);
    let mut r = String::from_str("{");
    proof {
        reveal_strlit("{");
        assert(parts.take(0) =~= Seq::<Seq<char>>::empty());
    }
    let mut i: usize = 0;
    while i < members.len()
        invariant
            i <= members.len(),
            parts == members@.map_values(|m: String| m@),
            r@ == seq!['{'] + joined(parts.take(i as int)),
        decreases members.len() - i,
    {
        if i > 0 {
            r.append(",");
        }
        r.append(members[i].as_str());
        proof {
            reveal_strlit(",");
            assert(parts.take(i + 1).drop_last() =~= parts.take(i as int));
            assert(parts.take(i + 1).last() == members@[i as int]@);
            if i == 0 {
                assert(parts.take(1) =~= seq![members@[0]@]);
            }
        }
        i = i + 1;
    }
    r.append("}");
    proof {
        reveal_strlit("}");
        assert(parts.take(members.len() as int) =~= parts);
    }
    r
}

/// The fields of a partial update, as sequences of characters.
pub struct PullEditView {
    pub title: Option<Seq<char>>,
    pub body: Option<Seq<char>>,
    pub state: Option<Seq<char>>,
}

impl PullEditView {
    /// The members that are sent: one for each field that is present, in the
    /// order title, body, state.
    pub open spec fn members(self) -> Seq<Seq<char>> {
        optional_member("title"@, self.title) + optional_member("body"@, self.body)
            + optional_member("state"@, self.state)
    }

    /// The JSON body of the update.
    pub open spec fn json(self) -> Seq<char> {
        object_text(self.members())
    }
}

/// The text of an optional string, where there is one.
pub open spec fn option_view(o: Option<String>) -> Option<Seq<char>> {
    match o {
        Some(s) => Some(s@),
        None => None,
    }
}

/// A partial update of a pull request: only the fields that are present are sent.
pub struct PullEdit {
    pub title: Option<String>,
    pub body: Option<String>,
    pub state: Option<String>,
}

impl View for PullEdit {
    type V = PullEditView;

    open spec fn view(&self) -> PullEditView {
        PullEditView {
            title: option_view(self.title),
            body: option_view(self.body),
            state: option_view(self.state),
        }
    }
}

fn push_optional(members: &mut Vec<String>, key: &str, value: &Option<String>)
    ensures
        final(members)@.map_values(|m: String| m@) == old(members)@.map_values(
            |m: String| m@,
        ) + optional_member(key@, option_view(*value)),
{
    match value {
        Some(v) => {
            let m = member_of(key, v.as_str());
            members.push(m);
            proof {
                assert(final(members)@.map_values(|m: String| m@) =~= old(members)@.map_values(
                    |m: String| m@,
                ) + optional_member(key@, option_view(*value)));
            }
        },
        None => {
            proof {
                assert(final(members)@.map_values(|m: String| m@) =~= old(members)@.map_values(
                    |m: String| m@,
                ) + optional_member(key@, option_view(*value)));
            }
        },
    }
}

impl PullEdit {
    pub fn new(title: Option<String>, body: Option<String>, state: Option<String>) -> (r: PullEdit)
        ensures
            r.title == title,
            r.body == body,
            r.state == state,
    {
        PullEdit { title, body, state }
    }

    /// The JSON body that carries this update.
    pub fn to_json(&self) -> (r: String)
        ensures
            r@ == self@.json(),
    {
        let mut members: Vec<String> = Vec::new();
        proof {
            assert(members@.map_values(|m: String| m@) =~= Seq::<Seq<char>>::empty());
        }
        push_optional(&mut members, "title", &self.title);
        push_optional(&mut members, "body", &self.body);
        push_optional(&mut members, "state", &self.state);
        proof {
            assert(members@.map_values(|m: String| m@) =~= self@.members());
        }
        object_of(&members)
    }
}

/// The fields of a creation payload, as sequences of characters.
pub struct PullReqView {
    pub title: Seq<char>,
    pub head: Seq<char>,
    pub base: Seq<char>,
    pub body: Seq<char>,
}

impl PullReqView {
    /// The members that are sent, in the order title, head, base, body.
    pub open spec fn members(self) -> Seq<Seq<char>> {
        seq![
            member("title"@, self.title),
            member("head"@, self.head),
            member("base"@, self.base),
            member("body"@, self.body),
        ]
    }

    /// The JSON body of the creation request.
    pub open spec fn json(self) -> Seq<char> {
        object_text(self.members())
    }
}

/// What opens a new pull request: its title, the branch that holds the changes
/// (head), the branch they are to be merged into (base) and a description.
pub struct PullReq {
    pub title: String,
    pub head: String,
    pub base: String,
    pub body: String,
}

impl View for PullReq {
    type V = PullReqView;

    open spec fn view(&self) -> PullReqView {
        PullReqView { title: self.title@, head: self.head@, base: self.base@, body: self.body@ }
    }
}

impl PullReq {
    pub fn new(title: &str, head: &str, base: &str, body: &str) -> (r: PullReq)
        ensures
            r@ == (PullReqView { title: title@, head: head@, base: base@, body: body@ }),
    {
        PullReq {
            title: title.to_owned(),
            head: head.to_owned(),
            base: base.to_owned(),
            body: body.to_owned(),
        }
    }

    /// The JSON body that carries this payload.
    pub fn to_json(&self) -> (r: String)
        ensures
            r@ == self@.json(),
    {
        let mut members: Vec<String> = Vec::new();
        members.push(member_of("title", self.title.as_str()));
        members.push(member_of("head", self.head.as_str()));
        members.push(member_of("base", self.base.as_str()));
        members.push(member_of("body", self.body.as_str()));
        proof {
            assert(members@.map_values(|m: String| m@) =~= self@.members());
        }
        object_of(&members)
    }
}

/// `r` is what an answer to a request for one pull request decodes to: the
/// transport's failure unchanged, the pull request where the body is within
/// the parser's limits and a JSON object, and a decoding failure otherwise.
pub open spec fn decodes_pull<E>(response: Result<String, E>, r: Result<Pull, Error<E>>) -> bool {
    match response {
        Err(e) => r == Err::<Pull, Error<E>>(Error::Transport(e)),
        Ok(body) => if within_parser_limits(body@) && json_shape(body@) is Object {
            r matches Ok(p) && p.json@ == body@
        } else {
            r == Err::<Pull, Error<E>>(Error::Decode)
        },
    }
}

/// Whether `text` is within the parser's limits and a JSON object.
pub open spec fn is_object(text: Seq<char>) -> bool {
    within_parser_limits(text) && json_shape(text) is Object
}

/// Whether `body` is within the parser's limits and a JSON array of such objects.
pub open spec fn is_array_of_objects(body: Seq<char>) -> bool {
    within_parser_limits(body) && (json_shape(body) matches Shape::Array(items) && forall|i: int|
        0 <= i < items.len() ==> #[trigger] is_object(items[i]))
}

/// `r` is what an answer to a listing request decodes to: the transport's
/// failure unchanged, the pull requests of the array in the order the service
/// gave them where the body is an array of objects (all within the parser's
/// limits), and a decoding failure
/// otherwise.
pub open spec fn decodes_pulls<E>(response: Result<String, E>, r: Result<Vec<Pull>, Error<E>>) -> bool {
    match response {
        Err(e) => r == Err::<Vec<Pull>, Error<E>>(Error::Transport(e)),
        Ok(body) => if is_array_of_objects(body@) {
            r matches Ok(pulls) && json_shape(body@) matches Shape::Array(items) && pulls@.map_values(|p: Pull| p.json@) == items
        } else {
            r == Err::<Vec<Pull>, Error<E>>(Error::Decode)
        },
    }
}

/// Decodes the answer to a request for one pull request.
pub fn decode_pull<E>(response: Result<String, E>) -> (r: Result<Pull, Error<E>>)
    ensures
        decodes_pull(response, r),
{
    match response {
        Err(e) => Err(Error::Transport(e)),
        Ok(body) => {
            if !fits_parser_limits(body.as_str()) {
                return Err(Error::Decode);
            }
            match parse_top(body.as_str()) {
                TopLevel::Object => Ok(Pull { json: body }),
                _ => Err(Error::Decode),
            }
        },
    }
}

proof fn lemma_refused_item(body: Seq<char>, texts: Seq<Seq<char>>, i: int)
    requires
        json_shape(body) == Shape::Array(texts),
        0 <= i < texts.len(),
        !is_object(texts[i]),
    ensures
        !is_array_of_objects(body),
{
    if is_array_of_objects(body) {
        if let Shape::Array(items) = json_shape(body) {
            assert(items == texts);
            assert(is_object(items[i]));
        }
    }
}

/// Decodes the answer to a listing request.
pub fn decode_pulls<E>(response: Result<String, E>) -> (r: Result<Vec<Pull>, Error<E>>)
    ensures
        decodes_pulls(response, r),
{
    match response {
        Err(e) => Err(Error::Transport(e)),
        Ok(body) => {
            if !fits_parser_limits(body.as_str()) {
                return Err(Error::Decode);
            }
            match parse_top(body.as_str()) {
                TopLevel::Array(items) => {
                    let ghost texts = items@.map_values(|e: String| e@);
                    let mut pulls: Vec<Pull> = Vec::new();
                    let mut i: usize = 0;
                    while i < items.len()
                        invariant
                            i <= items.len(),
                            response == Ok::<String, E>(body),
                            texts == items@.map_values(|e: String| e@),
                            json_shape(body@) == Shape::Array(texts),
                            within_parser_limits(body@),
                            forall|j: int| 0 <= j < i ==> #[trigger] is_object(texts[j]),
                            pulls@.map_values(|p: Pull| p.json@) == texts.take(i as int),
                        decreases items.len() - i,
                    {
                        proof {
                            assert(texts[i as int] == items@[i as int]@);
                        }
                        if !fits_parser_limits(items[i].as_str()) {
                            proof {
                                assert(!is_object(texts[i as int]));
                                lemma_refused_item(body@, texts, i as int);
                            }
                            return Err(Error::Decode);
                        }
                        match parse_top(items[i].as_str()) {
                            TopLevel::Object => {
                                let ghost before = pulls@.map_values(|p: Pull| p.json@);
                                pulls.push(Pull { json: items[i].clone() });
                                proof {
                                    assert(pulls@.map_values(|p: Pull| p.json@) =~= before.push(
                                        texts[i as int],
                                    ));
                                    assert(pulls@.map_values(|p: Pull| p.json@) =~= texts.take(
                                        i + 1,
                                    ));
                                }
                            },
                            _ => {
                                proof {
                                    assert(!is_object(texts[i as int]));
                                    lemma_refused_item(body@, texts, i as int);
                                }
                                return Err(Error::Decode);
                            },
                        }
                        i = i + 1;
                    }
                    proof {
                        assert(texts.take(items.len() as int) =~= texts);
                    }
                    Ok(pulls)
                },
                _ => Err(Error::Decode),
            }
        },
    }
}

/// A listing answer that is an array of objects within the parser's limits
/// decodes to exactly its elements: as many pull requests as elements, each
/// the compact encoding of its element, in the order the service sent them.
pub proof fn lemma_list_keeps_server_order<E>(
    body: String,
    items: Seq<Seq<char>>,
    r: Result<Vec<Pull>, Error<E>>,
)
    requires
        json_shape(body@) == Shape::Array(items),
        is_array_of_objects(body@),
        decodes_pulls(Ok::<String, E>(body), r),
    ensures
        r is Ok,
        r->Ok_0.len() == items.len(),
        forall|i: int| 0 <= i < items.len() ==> (#[trigger] r->Ok_0[i]).json@ == items[i],
{
    let pulls = r->Ok_0;
    assert(pulls@.map_values(|p: Pull| p.json@) == items);
    assert forall|i: int| 0 <= i < items.len() implies (#[trigger] pulls[i]).json@ == items[i] by {
        assert(pulls@.map_values(|p: Pull| p.json@)[i] == pulls@[i].json@);
    }
}

} // verus!
