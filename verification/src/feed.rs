//! The commission's feed of new filings: the items of its RSS document, read
//! from the events of an XML reader.
//!
//! Outside an item everything is passed over but the start of an item. Inside
//! an item each text replaces the one before it, and the end of an element
//! gives that text to the field of the element's name. The end of the item
//! closes it, and it must then have all of its fields.

use crate::header::text_of;
use crate::text::str_eq;
use vstd::prelude::*;

verus! {

/// One event of an XML reader, as far as the feed needs it.
#[derive(Debug)]
pub enum FeedEvent {
    /// The start of the element of this name.
    Start(String),
    /// Text.
    Text(String),
    /// The end of the element of this name.
    End(String),
    /// The end of the document.
    Eof,
    /// Anything else.
    Other,
}

/// One item of the feed.
#[derive(Debug)]
pub struct RssFeedItem {
    pub title: String,
    pub link: String,
    pub description: String,
    pub guid: String,
    pub date: String,
}

/// What an `RssFeedItem` holds.
pub struct ItemView {
    pub title: Seq<char>,
    pub link: Seq<char>,
    pub description: Seq<char>,
    pub guid: Seq<char>,
    pub date: Seq<char>,
}

impl View for RssFeedItem {
    type V = ItemView;

    open spec fn view(&self) -> ItemView {
        ItemView {
            title: self.title@,
            link: self.link@,
            description: self.description@,
            guid: self.guid@,
            date: self.date@,
        }
    }
}

/// Why the events are no feed.
#[derive(Debug)]
pub enum FeedError {
    /// The document ends inside an item.
    UnclosedItem,
    /// An item holds an element of this name, which no item has.
    UnknownElement(String),
    /// An item holds something that is neither an element nor text.
    UnexpectedEvent,
    /// An item lacks its title, link, description, guid or date.
    IncompleteItem,
}

/// What a `FeedError` says.
pub enum FeedFault {
    UnclosedItem,
    UnknownElement(Seq<char>),
    UnexpectedEvent,
    IncompleteItem,
}

impl View for FeedError {
    type V = FeedFault;

    open spec fn view(&self) -> FeedFault {
        match self {
            FeedError::UnclosedItem => FeedFault::UnclosedItem,
            FeedError::UnknownElement(name) => FeedFault::UnknownElement(name@),
            FeedError::UnexpectedEvent => FeedFault::UnexpectedEvent,
            FeedError::IncompleteItem => FeedFault::IncompleteItem,
        }
    }
}

/// What has been read of an item: the last text, and the fields so far.
pub struct Draft {
    pub text: Seq<char>,
    pub title: Option<Seq<char>>,
    pub link: Option<Seq<char>>,
    pub description: Option<Seq<char>>,
    pub guid: Option<Seq<char>>,
    pub date: Option<Seq<char>>,
}

/// An item of which nothing has been read.
pub open spec fn blank() -> Draft {
    Draft {
        text: Seq::empty(),
        title: None,
        link: None,
        description: None,
        guid: None,
        date: None,
    }
}

/// The draft after the element `name` has ended: its field holds the last
/// text. The date of publication is passed over. There is no draft for a name
/// that no item has.
pub open spec fn closed(draft: Draft, name: Seq<char>) -> Option<Draft> {
    if name == "title"@ {
        Some(Draft { title: Some(draft.text), ..draft })
    } else if name == "link"@ {
        Some(Draft { link: Some(draft.text), ..draft })
    } else if name == "description"@ {
        Some(Draft { description: Some(draft.text), ..draft })
    } else if name == "pubDate"@ {
        Some(draft)
    } else if name == "guid"@ {
        Some(Draft { guid: Some(draft.text), ..draft })
    } else if name == "dc:date"@ {
        Some(Draft { date: Some(draft.text), ..draft })
    } else {
        None
    }
}

/// The item that a draft gives once it has all of its fields.
pub open spec fn finished(draft: Draft) -> Option<ItemView> {
    match (draft.title, draft.link, draft.description, draft.guid, draft.date) {
        (Some(title), Some(link), Some(description), Some(guid), Some(date)) => Some(
            ItemView { title, link, description, guid, date },
        ),
        _ => None,
    }
}

/// The items of the events from index `at` on, behind the items `items`, with
/// `inside` the draft of the item that is open at `at`, if one is.
pub open spec fn items_from(
    events: Seq<FeedEvent>,
    at: int,
    inside: Option<Draft>,
    items: Seq<ItemView>,
) -> Result<Seq<ItemView>, FeedFault>
    decreases events.len() - at,
{
    if at < 0 || at >= events.len() {
        match inside {
            None => Ok(items),
            Some(_) => Err(FeedFault::UnclosedItem),
        }
    } else {
        match inside {
            None => match events[at] {
                FeedEvent::Eof => Ok(items),
                FeedEvent::Start(name) => if name@ == "item"@ {
                    items_from(events, at + 1, Some(blank()), items)
                } else {
                    items_from(events, at + 1, None, items)
                },
                _ => items_from(events, at + 1, None, items),
            },
            Some(draft) => match events[at] {
                FeedEvent::Eof => Err(FeedFault::UnclosedItem),
                FeedEvent::Other => Err(FeedFault::UnexpectedEvent),
                FeedEvent::Start(_) => items_from(events, at + 1, inside, items),
                FeedEvent::Text(text) => items_from(
                    events,
                    at + 1,
                    Some(Draft { text: text@, ..draft }),
                    items,
                ),
                FeedEvent::End(name) => if name@ == "item"@ {
                    match finished(draft) {
                        Some(item) => items_from(events, at + 1, None, items.push(item)),
                        None => Err(FeedFault::IncompleteItem),
                    }
                } else {
                    match closed(draft, name@) {
                        Some(next) => items_from(events, at + 1, Some(next), items),
                        None => Err(FeedFault::UnknownElement(name@)),
                    }
                },
            },
        }
    }
}

/// The items of a feed that is read as `events`.
pub open spec fn items_of(events: Seq<FeedEvent>) -> Result<Seq<ItemView>, FeedFault> {
    items_from(events, 0, None, Seq::empty())
}

/// The views of `items`, one for each.
pub open spec fn item_views(items: Seq<RssFeedItem>) -> Seq<ItemView> {
    Seq::new(items.len(), |i: int| items[i]@)
}

/// The fields of an item while it is read.
struct ItemDraft {
    text: String,
    title: Option<String>,
    link: Option<String>,
    description: Option<String>,
    guid: Option<String>,
    date: Option<String>,
}

impl View for ItemDraft {
    type V = Draft;

    closed spec fn view(&self) -> Draft {
        Draft {
            text: self.text@,
            title: text_of(self.title),
            link: text_of(self.link),
            description: text_of(self.description),
            guid: text_of(self.guid),
            date: text_of(self.date),
        }
    }
}

impl ItemDraft {
    fn new() -> (draft: ItemDraft)
        ensures
            draft@ == blank(),
    {
        ItemDraft {
            text: String::new(),
            title: None,
            link: None,
            description: None,
            guid: None,
            date: None,
        }
    }

    /// Gives the last text to the field of the element `name`, if an item
    /// has such an element.
    fn close(self, name: &str) -> (next: Option<ItemDraft>)
        ensures
            match next {
                Some(draft) => closed(self@, name@) == Some(draft@),
                None => closed(self@, name@) is None,
            },
    {
        let mut draft = self;
        if str_eq(name, "title") {
            draft.title = Some(draft.text.clone());
        } else if str_eq(name, "link") {
            draft.link = Some(draft.text.clone());
        } else if str_eq(name, "description") {
            draft.description = Some(draft.text.clone());
        } else if str_eq(name, "pubDate") {
        } else if str_eq(name, "guid") {
            draft.guid = Some(draft.text.clone());
        } else if str_eq(name, "dc:date") {
            draft.date = Some(draft.text.clone());
        } else {
            return None;
        }
        Some(draft)
    }

    /// The item, if it has all of its fields.
    fn finish(self) -> (item: Option<RssFeedItem>)
        ensures
            match item {
                Some(item) => finished(self@) == Some(item@),
                None => finished(self@) is None,
            },
    {
        match (self.title, self.link, self.description, self.guid, self.date) {
            (Some(title), Some(link), Some(description), Some(guid), Some(date)) => Some(
                RssFeedItem { title, link, description, guid, date },
            ),
            _ => None,
        }
    }
}

/// Reads the items of a feed from the events of its document.
pub fn feed_items(events: &Vec<FeedEvent>) -> (r: Result<Vec<RssFeedItem>, FeedError>)
    ensures
        match r {
            Ok(items) => items_of(events@) == Ok::<Seq<ItemView>, FeedFault>(item_views(items@)),
            Err(e) => items_of(events@) == Err::<Seq<ItemView>, FeedFault>(e@),
        },
{
    let n: usize = events.len();
    let mut items: Vec<RssFeedItem> = Vec::new();
    let mut inside: Option<ItemDraft> = None;
    let mut i: usize = 0;
    proof {
        assert(item_views(items@) =~= Seq::<ItemView>::empty());
    }
    while i < n
        invariant
            i <= n,
            n == events.len(),
            items_of(events@) == items_from(
                events@,
                i as int,
                match inside {
                    Some(draft) => Some(draft@),
                    None => None,
                },
                item_views(items@),
            ),
        decreases n - i,
    {
        match inside {
            None => match &events[i] {
                FeedEvent::Eof => {
                    return Ok(items);
                },
                FeedEvent::Start(name) => {
                    if str_eq(name.as_str(), "item") {
                        inside = Some(ItemDraft::new());
                    } else {
                        inside = None;
                    }
                },
                _ => {
                    inside = None;
                },
            },
            Some(draft) => match &events[i] {
                FeedEvent::Eof => {
                    return Err(FeedError::UnclosedItem);
                },
                FeedEvent::Other => {
                    return Err(FeedError::UnexpectedEvent);
                },
                FeedEvent::Start(_) => {
                    inside = Some(draft);
                },
                FeedEvent::Text(text) => {
                    let mut draft = draft;
                    draft.text = text.clone();
                    inside = Some(draft);
                },
                FeedEvent::End(name) => {
                    if str_eq(name.as_str(), "item") {
                        match draft.finish() {
                            Some(item) => {
                                let ghost before = item_views(items@);
                                items.push(item);
                                proof {
                                    assert(item_views(items@) =~= before.push(item@));
                                }
                                inside = None;
                            },
                            None => {
                                return Err(FeedError::IncompleteItem);
                            },
                        }
                    } else {
                        match draft.close(name.as_str()) {
                            Some(next) => {
                                inside = Some(next);
                            },
                            None => {
                                return Err(FeedError::UnknownElement(name.clone()));
                            },
                        }
                    }
                },
            },
        }
        i = i + 1;
    }
    match inside {
        None => Ok(items),
        Some(_) => Err(FeedError::UnclosedItem),
    }
}

} // verus!
