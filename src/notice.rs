use vstd::prelude::*;
use vstd::string::*;

use crate::text::{begins_with, same_text};

verus! {

/// The two kinds of notification the UI sends.
#[derive(Clone, Copy, Debug, PartialEq, Eq, Structural)]
pub enum NotificationKind {
    /// A chat message: inline reply, optional image.
    Message,
    /// Anything else.
    Generic,
}

/// A notification request, parsed once from the UI's loosely typed fields.
#[derive(Debug)]
pub struct NotificationRequest {
    pub kind: NotificationKind,
    pub title: String,
    pub body: String,
    pub tag: String,
    /// The message's sub-type; empty for a generic notification.
    pub subtype: String,
    pub image_url: Option<String>,
}

/// A notification ready for the daemon.
#[derive(Debug)]
pub struct Notice {
    pub title: String,
    pub body: String,
    /// Grouping key; the request's tag.
    pub thread_id: String,
    /// Reply category, set for messages only.
    pub category_id: Option<String>,
    /// The correlation string stored under `NotificationPayload`.
    pub payload: String,
    /// Local file shown as the notification's image.
    pub image_path: Option<String>,
}

/// A notification the daemon currently shows.
#[derive(Debug)]
pub struct DeliveredNotice {
    pub id: String,
    /// Its `NotificationPayload` entry, if it has one.
    pub payload: Option<String>,
}

/// The key under which a notification's payload is stored.
pub open spec fn payload_key() -> Seq<char> {
    "NotificationPayload"@
}

pub open spec fn reply_category() -> Seq<char> {
    "cn.stapxs.qqweb.reply"@
}

pub open spec fn message_kind_name() -> Seq<char> {
    "msg"@
}

/// The payload that ties a daemon notification back to a tag.
pub open spec fn payload_text(tag: Seq<char>, subtype: Seq<char>) -> Seq<char> {
    tag + "/"@ + subtype
}

/// Whether an image address is fetched over HTTP.
pub open spec fn is_web_address(url: Seq<char>) -> bool {
    "http://"@.is_prefix_of(url) || "https://"@.is_prefix_of(url)
}

/// The image a request asks to fetch before sending, if any.
pub open spec fn image_to_fetch_spec(req: NotificationRequest) -> Option<Seq<char>> {
    match req.image_url {
        Some(u) => if req.kind == NotificationKind::Message && is_web_address(u@) {
            Some(u@)
        } else {
            None
        },
        None => None,
    }
}

/// Whether a delivered notification belongs to `tag`: its payload begins with
/// the tag as plain text, so `"abc"` also takes `"abcd/2"`.
pub open spec fn closes(n: DeliveredNotice, tag: Seq<char>) -> bool {
    match n.payload {
        Some(p) => tag.is_prefix_of(p@),
        None => false,
    }
}

/// The ids, in order, of the notifications that `tag` closes.
pub open spec fn ids_closed_by(active: Seq<DeliveredNotice>, tag: Seq<char>) -> Seq<String>
    decreases active.len(),
{
    if active.len() == 0 {
        Seq::empty()
    } else {
        let before = ids_closed_by(active.drop_last(), tag);
        if closes(active.last(), tag) {
            before.push(active.last().id)
        } else {
            before
        }
    }
}

/// Closing by tag removes exactly the active notifications whose payload
/// begins with the tag: an id is among those removed if and only if some
/// active notification with that id matches, and the others stay.
pub proof fn lemma_close_by_tag_exact(active: Seq<DeliveredNotice>, tag: Seq<char>)
    ensures
        forall|id: String|
            ids_closed_by(active, tag).contains(id) <==> exists|i: int|
                0 <= i < active.len() && (#[trigger] active[i]).id == id && closes(active[i], tag),
    decreases active.len(),
{
    if active.len() > 0 {
        let before = active.drop_last();
        lemma_close_by_tag_exact(before, tag);
        assert forall|id: String|
            ids_closed_by(active, tag).contains(id) <==> exists|i: int|
                0 <= i < active.len() && (#[trigger] active[i]).id == id && closes(active[i], tag) by {
            if ids_closed_by(active, tag).contains(id) {
                if ids_closed_by(before, tag).contains(id) {
                    let i = choose|i: int| 0 <= i < before.len() && (#[trigger] before[i]).id == id && closes(before[i], tag);
                    assert(active[i] == before[i]);
                } else {
                    let last = active.len() - 1;
                    assert(ids_closed_by(active, tag) == ids_closed_by(before, tag).push(active.last().id));
                    assert(active[last].id == id);
                }
            }
            if exists|i: int| 0 <= i < active.len() && (#[trigger] active[i]).id == id && closes(active[i], tag) {
                let i = choose|i: int| 0 <= i < active.len() && (#[trigger] active[i]).id == id && closes(active[i], tag);
                if i < active.len() - 1 {
                    assert(before[i] == active[i]);
                    assert(ids_closed_by(before, tag).contains(id));
                    let j = choose|j: int| 0 <= j < ids_closed_by(before, tag).len() && ids_closed_by(before, tag)[j] == id;
                    if closes(active.last(), tag) {
                        assert(ids_closed_by(active, tag)[j] == id);
                    }
                } else {
                    let r = ids_closed_by(active, tag);
                    assert(r[r.len() - 1] == id);
                }
            }
        }
    }
}

/// Builds the payload string `tag/subtype`.
pub fn payload_of(tag: &str, subtype: &str) -> (r: String)
    ensures
        r@ == payload_text(tag@, subtype@),
{
    let mut r = String::from_str(tag);
    proof {
        reveal_strlit("/");
    }
    r.append("/");
    r.append(subtype);
    r
}

/// Whether a text begins with `http://` or `https://`.
pub fn is_web_url(url: &str) -> (r: bool)
    ensures
        r == is_web_address(url@),
{
    begins_with(url, "http://") || begins_with(url, "https://")
}

impl NotificationRequest {
    /// Builds a request from the UI's fields. `None` when a field that the
    /// kind requires is absent: the title, body and tag always, the sub-type
    /// for a message. The kind is a message exactly when `base_type` is `msg`.
    pub fn from_fields(
        base_type: &str,
        title: Option<String>,
        body: Option<String>,
        tag: Option<String>,
        subtype: Option<String>,
        image_url: Option<String>,
    ) -> (r: Option<NotificationRequest>)
        ensures
            r is Some <==> (title is Some && body is Some && tag is Some
                && (base_type@ == message_kind_name() ==> subtype is Some)),
            r is Some ==> ({
                let q = r->Some_0;
                &&& q.kind == (if base_type@ == message_kind_name() {
                    NotificationKind::Message
                } else {
                    NotificationKind::Generic
                })
                &&& q.title == title->Some_0
                &&& q.body == body->Some_0
                &&& q.tag == tag->Some_0
                &&& q.subtype@ == (if base_type@ == message_kind_name() {
                    subtype->Some_0@
                } else {
                    Seq::empty()
                })
                &&& q.image_url == (if base_type@ == message_kind_name() {
                    image_url
                } else {
                    None
                })
            }),
    {
        proof {
            reveal_strlit("msg");
        }
        let is_message = same_text(base_type, "msg");
        match (title, body, tag) {
            (Some(title), Some(body), Some(tag)) => {
                if is_message {
                    match subtype {
                        Some(subtype) => Some(
                            NotificationRequest {
                                kind: NotificationKind::Message,
                                title,
                                body,
                                tag,
                                subtype,
                                image_url,
                            },
                        ),
                        None => None,
                    }
                } else {
                    Some(
                        NotificationRequest {
                            kind: NotificationKind::Generic,
                            title,
                            body,
                            tag,
                            subtype: String::new(),
                            image_url: None,
                        },
                    )
                }
            },
            _ => None,
        }
    }

    /// The image address to fetch before sending: a message's image when it
    /// is an `http://` or `https://` address, else none.
    pub fn image_to_fetch(&self) -> (r: Option<String>)
        ensures
            match image_to_fetch_spec(*self) {
                Some(u) => r is Some && r->Some_0@ == u,
                None => r is None,
            },
    {
        match &self.image_url {
            Some(u) => {
                if self.kind == NotificationKind::Message && is_web_url(u.as_str()) {
                    Some(u.clone())
                } else {
                    None
                }
            },
            None => None,
        }
    }

    /// The notification to submit, before any image is attached.
    pub fn to_notice(&self) -> (r: Notice)
        ensures
            r.title@ == self.title@,
            r.body@ == self.body@,
            r.thread_id@ == self.tag@,
            r.payload@ == payload_text(self.tag@, self.subtype@),
            self.kind == NotificationKind::Message ==> r.category_id is Some && r.category_id->Some_0@
                == reply_category(),
            self.kind == NotificationKind::Generic ==> r.category_id is None,
            r.image_path is None,
    {
        let category_id = if self.kind == NotificationKind::Message {
            proof {
                reveal_strlit("cn.stapxs.qqweb.reply");
            }
            Some(String::from_str("cn.stapxs.qqweb.reply"))
        } else {
            None
        };
        Notice {
            title: self.title.clone(),
            body: self.body.clone(),
            thread_id: self.tag.clone(),
            category_id,
            payload: payload_of(self.tag.as_str(), self.subtype.as_str()),
            image_path: None,
        }
    }
}

impl Notice {
    /// Finishes a notice once its image fetch is over: a saved image is
    /// attached; a failed fetch fails the whole send, so nothing is submitted.
    pub fn with_fetched_image(self, fetched: Result<String, String>) -> (r: Result<Notice, String>)
        ensures
            match fetched {
                Ok(path) => r is Ok && r->Ok_0.image_path == Some(path)
                    && r->Ok_0.title == self.title && r->Ok_0.body == self.body
                    && r->Ok_0.thread_id == self.thread_id && r->Ok_0.category_id == self.category_id
                    && r->Ok_0.payload == self.payload,
                Err(e) => r == Err::<Notice, String>(e),
            },
    {
        match fetched {
            Ok(path) => Ok(Notice { image_path: Some(path), ..self }),
            Err(e) => Err(e),
        }
    }
}

/// The ids of the active notifications whose payload begins with `tag`, in
/// the order the daemon listed them; the others stay.
pub fn ids_to_close(active: &Vec<DeliveredNotice>, tag: &str) -> (r: Vec<String>)
    ensures
        r@ == ids_closed_by(active@, tag@),
{
    let mut r: Vec<String> = Vec::new();
    let mut i: usize = 0;
    while i < active.len()
        invariant
            i <= active@.len(),
            r@ == ids_closed_by(active@.subrange(0, i as int), tag@),
        decreases active@.len() - i,
    {
        let n = &active[i];
        assert(active@.subrange(0, i + 1).drop_last() =~= active@.subrange(0, i as int));
        assert(active@.subrange(0, i + 1).last() == active@[i as int]);
        match &n.payload {
            Some(p) => {
                if begins_with(p.as_str(), tag) {
                    r.push(n.id.clone());
                }
            },
            None => {},
        }
        i = i + 1;
    }
    assert(active@.subrange(0, active@.len() as int) =~= active@);
    r
}

/// What closing by tag returns once the daemon has answered the removal.
pub fn close_reply(removal: Result<(), String>) -> (r: Result<String, String>)
    ensures
        match removal {
            Ok(()) => r is Ok && r->Ok_0@ == "success"@,
            Err(e) => r == Err::<String, String>(e),
        },
{
    match removal {
        Ok(()) => {
            proof {
                reveal_strlit("success");
            }
            Ok(String::from_str("success"))
        },
        Err(e) => Err(e),
    }
}

/// What clearing every notification returns: `success`, or the daemon's error text.
pub fn clear_reply(removal: Result<(), String>) -> (r: String)
    ensures
        match removal {
            Ok(()) => r@ == "success"@,
            Err(e) => r == e,
        },
{
    match removal {
        Ok(()) => {
            proof {
                reveal_strlit("success");
            }
            String::from_str("success")
        },
        Err(e) => e,
    }
}

} // verus!
