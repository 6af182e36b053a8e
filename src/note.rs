//! A note view: a row with the note's actions (open, QR code, delete) and
//! buttons for its tags.
use vstd::prelude::*;

verus! {

/// What a user can ask of a note.
#[derive(Debug, Clone)]
pub enum Message {
    OpenUrl,
    Delete,
    QRCode,
    Search(String),
}

/// One tag of a note.
pub struct Tag {
    name: String,
}

/// A note and its tags.
pub struct NoteView {
    tags: Vec<Tag>,
}

/// The line that the view reports when it handles `msg`.
pub open spec fn notice_of(msg: Message) -> Seq<char> {
    match msg {
        Message::OpenUrl => "open url"@,
        Message::Delete => "delete"@,
        Message::QRCode => "QRCode"@,
        Message::Search(tag) => "search tag: "@ + tag@,
    }
}

impl View for NoteView {
    type V = Seq<Seq<char>>;

    /// The names of the note's tags, in order.
    closed spec fn view(&self) -> Seq<Seq<char>> {
        self.tags@.map_values(|t: Tag| t.name@)
    }
}

impl NoteView {
    /// A note view without tags.
    pub fn new() -> (r: NoteView)
        ensures
            r@ == Seq::<Seq<char>>::empty(),
    {
        let r = NoteView { tags: Vec::new() };
        assert(r@ =~= Seq::<Seq<char>>::empty());
        r
    }

    /// Handles `msg`. Opening, deleting and searching are left to the view that
    /// holds this one, so the note itself is unchanged; the result is the line
    /// that reports what was asked.
    pub fn update(&mut self, msg: Message) -> (r: String)
        ensures
            *final(self) == *old(self),
            r@ == notice_of(msg),
    {
        match msg {
            Message::OpenUrl => "open url".to_owned(),
            Message::Delete => "delete".to_owned(),
            Message::QRCode => "QRCode".to_owned(),
            Message::Search(tag) => "search tag: ".to_owned().concat(tag.as_str()),
        }
    }

    /// The window title.
    pub fn title(&self) -> (r: String)
        ensures
            r@ == "Grocery List App"@,
    {
        "Grocery List App".to_owned()
    }
}

} // verus!
