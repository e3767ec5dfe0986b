use vstd::prelude::*;

verus! {

/// A request to forward a message to a chat.
pub struct ChatData<T> {
    pub chatid: String,
    pub message: T,
}

/// Why a forwarding request could not be decoded.
#[derive(Clone, Copy, Debug, PartialEq, Eq, Structural)]
pub enum DecodeError {
    /// No `chatid` field, or an empty one.
    MissingChatId,
    /// No `message` field where a message is mandatory.
    MissingMessage,
    /// The body or query string is not a set of string fields.
    Unparsable,
}

/// The fields of a request, in the shape it arrived in.
pub enum PayloadSource {
    /// Decoded pairs of the URL query string, in order.
    QueryParams(Vec<(String, String)>),
    /// The string members of a JSON object body, in order.
    JsonBody(Vec<(String, String)>),
}

pub open spec fn pairs_view(pairs: Seq<(String, String)>) -> Seq<(Seq<char>, Seq<char>)> {
    pairs.map_values(|p: (String, String)| (p.0@, p.1@))
}

pub open spec fn source_fields(src: PayloadSource) -> Seq<(Seq<char>, Seq<char>)> {
    match src {
        PayloadSource::QueryParams(p) => pairs_view(p@),
        PayloadSource::JsonBody(p) => pairs_view(p@),
    }
}

/// The value of field `key`; where the key repeats, the last one counts.
pub open spec fn lookup(fields: Seq<(Seq<char>, Seq<char>)>, key: Seq<char>) -> Option<Seq<char>>
    decreases fields.len(),
{
    if fields.len() == 0 {
        None
    } else if fields.last().0 == key {
        Some(fields.last().1)
    } else {
        lookup(fields.drop_last(), key)
    }
}

pub open spec fn chatid_key() -> Seq<char> {
    "chatid"@
}

pub open spec fn message_key() -> Seq<char> {
    "message"@
}

/// The chat identifier of a request: present and not empty.
pub open spec fn chatid_of(fields: Seq<(Seq<char>, Seq<char>)>) -> Result<Seq<char>, DecodeError> {
    match lookup(fields, chatid_key()) {
        Some(c) => if c.len() > 0 { Ok(c) } else { Err(DecodeError::MissingChatId) },
        None => Err(DecodeError::MissingChatId),
    }
}

/// A text-only request: chat identifier and mandatory message.
pub open spec fn text_request_of(fields: Seq<(Seq<char>, Seq<char>)>) -> Result<(Seq<char>, Seq<char>), DecodeError> {
    match chatid_of(fields) {
        Err(e) => Err(e),
        Ok(c) => match lookup(fields, message_key()) {
            Some(m) => Ok((c, m)),
            None => Err(DecodeError::MissingMessage),
        },
    }
}

/// A file request: chat identifier and optional message.
pub open spec fn file_request_of(fields: Seq<(Seq<char>, Seq<char>)>) -> Result<(Seq<char>, Option<Seq<char>>), DecodeError> {
    match chatid_of(fields) {
        Err(e) => Err(e),
        Ok(c) => Ok((c, lookup(fields, message_key()))),
    }
}

pub open spec fn opt_view(o: Option<String>) -> Option<Seq<char>> {
    match o {
        Some(s) => Some(s@),
        None => None,
    }
}

/// Two sources carry the same logical fields.
pub open spec fn equivalent_sources(a: PayloadSource, b: PayloadSource) -> bool {
    &&& lookup(source_fields(a), chatid_key()) == lookup(source_fields(b), chatid_key())
    &&& lookup(source_fields(a), message_key()) == lookup(source_fields(b), message_key())
}

fn lookup_field(pairs: &Vec<(String, String)>, key: &String) -> (r: Option<String>)
    ensures
        opt_view(r) == lookup(pairs_view(pairs@), key@),
{
    let mut found: Option<String> = None;
    let mut i: usize = 0;
    while i < pairs.len()
        invariant
            i <= pairs.len(),
            opt_view(found) == lookup(pairs_view(pairs@.take(i as int)), key@),
        decreases pairs.len() - i,
    {
        let ghost before = pairs@.take(i as int);
        assert(pairs_view(pairs@.take(i as int + 1)).drop_last() =~= pairs_view(before));
        if pairs[i].0 == *key {
            found = Some(pairs[i].1.clone());
        }
        i = i + 1;
    }
    assert(pairs@.take(pairs.len() as int) =~= pairs@);
    found
}

fn source_pairs(src: &PayloadSource) -> (r: &Vec<(String, String)>)
    ensures
        pairs_view(r@) == source_fields(*src),
{
    match src {
        PayloadSource::QueryParams(p) => p,
        PayloadSource::JsonBody(p) => p,
    }
}

fn decode_chatid(pairs: &Vec<(String, String)>) -> (r: Result<String, DecodeError>)
    ensures
        match r {
            Ok(c) => chatid_of(pairs_view(pairs@)) == Ok::<Seq<char>, DecodeError>(c@),
            Err(e) => chatid_of(pairs_view(pairs@)) == Err::<Seq<char>, DecodeError>(e),
        },
{
    proof {
        reveal_strlit("chatid");
    }
    let key = String::from_str("chatid");
    match lookup_field(pairs, &key) {
        Some(c) => if c.as_str().unicode_len() > 0 {
            Ok(c)
        } else {
            Err(DecodeError::MissingChatId)
        },
        None => Err(DecodeError::MissingChatId),
    }
}

/// Decodes a text-only request, in which the message is mandatory.
pub fn decode_message_request(src: &PayloadSource) -> (r: Result<ChatData<String>, DecodeError>)
    ensures
        match r {
            Ok(d) => text_request_of(source_fields(*src)) == Ok::<(Seq<char>, Seq<char>), DecodeError>((d.chatid@, d.message@)),
            Err(e) => text_request_of(source_fields(*src)) == Err::<(Seq<char>, Seq<char>), DecodeError>(e),
        },
{
    let pairs = source_pairs(src);
    let chatid = match decode_chatid(pairs) {
        Ok(c) => c,
        Err(e) => return Err(e),
    };
    proof {
        reveal_strlit("message");
    }
    let key = String::from_str("message");
    match lookup_field(pairs, &key) {
        Some(message) => Ok(ChatData { chatid, message }),
        None => Err(DecodeError::MissingMessage),
    }
}

/// Decodes a file request, in which the message is optional.
pub fn decode_file_request(src: &PayloadSource) -> (r: Result<ChatData<Option<String>>, DecodeError>)
    ensures
        match r {
            Ok(d) => file_request_of(source_fields(*src)) == Ok::<(Seq<char>, Option<Seq<char>>), DecodeError>((d.chatid@, opt_view(d.message))),
            Err(e) => file_request_of(source_fields(*src)) == Err::<(Seq<char>, Option<Seq<char>>), DecodeError>(e),
        },
{
    let pairs = source_pairs(src);
    let chatid = match decode_chatid(pairs) {
        Ok(c) => c,
        Err(e) => return Err(e),
    };
    proof {
        reveal_strlit("message");
    }
    let key = String::from_str("message");
    let message = lookup_field(pairs, &key);
    Ok(ChatData { chatid, message })
}

/// Decoding does not depend on the shape a request arrived in: a query string
/// and a JSON body that carry the same fields decode to the same request, on
/// the text path and on the file path alike.
pub proof fn lemma_decoding_ignores_shape(query: Vec<(String, String)>, body: Vec<(String, String)>)
    requires
        equivalent_sources(PayloadSource::QueryParams(query), PayloadSource::JsonBody(body)),
    ensures
        text_request_of(pairs_view(query@)) == text_request_of(pairs_view(body@)),
        file_request_of(pairs_view(query@)) == file_request_of(pairs_view(body@)),
{
}

} // verus!
