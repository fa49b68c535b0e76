//! Messages that are shown to a person for a while.
use vstd::prelude::*;

verus! {

/// How serious a message is.
#[derive(Clone, Copy, Debug, PartialEq, Eq, Structural)]
pub enum NoticeLevel {
    Success,
    Info,
    Warning,
    Error,
}

/// A message with a title.
#[derive(Debug, PartialEq, Eq)]
pub struct Notice {
    pub level: NoticeLevel,
    pub title: String,
    pub message: String,
}

/// A message by its texts.
pub struct NoticeView {
    pub level: NoticeLevel,
    pub title: Seq<char>,
    pub message: Seq<char>,
}

impl View for Notice {
    type V = NoticeView;

    open spec fn view(&self) -> NoticeView {
        NoticeView { level: self.level, title: self.title@, message: self.message@ }
    }
}

/// A message by its texts.
pub open spec fn says(level: NoticeLevel, title: Seq<char>, message: Seq<char>) -> NoticeView {
    NoticeView { level, title, message }
}

impl Notice {
    pub fn success(title: &str, message: &str) -> (r: Self)
        ensures
            r@ == says(NoticeLevel::Success, title@, message@),
    {
        Notice { level: NoticeLevel::Success, title: title.to_owned(), message: message.to_owned() }
    }

    pub fn info(title: &str, message: &str) -> (r: Self)
        ensures
            r@ == says(NoticeLevel::Info, title@, message@),
    {
        Notice { level: NoticeLevel::Info, title: title.to_owned(), message: message.to_owned() }
    }

    pub fn warning(title: &str, message: &str) -> (r: Self)
        ensures
            r@ == says(NoticeLevel::Warning, title@, message@),
    {
        Notice { level: NoticeLevel::Warning, title: title.to_owned(), message: message.to_owned() }
    }

    pub fn error(title: &str, message: &str) -> (r: Self)
        ensures
            r@ == says(NoticeLevel::Error, title@, message@),
    {
        Notice { level: NoticeLevel::Error, title: title.to_owned(), message: message.to_owned() }
    }
}

/// An optional message by its texts.
pub open spec fn notice_view(notice: Option<Notice>) -> Option<NoticeView> {
    match notice {
        Some(notice) => Some(notice@),
        None => None,
    }
}

/// Two texts, one behind the other.
pub fn joined2(a: &str, b: &str) -> (r: String)
    ensures
        r@ == a@ + b@,
{
    let mut out = a.to_owned();
    out.append(b);
    out
}

/// Three texts, one behind the other.
pub fn joined3(a: &str, b: &str, c: &str) -> (r: String)
    ensures
        r@ == a@ + b@ + c@,
{
    let mut out = a.to_owned();
    out.append(b);
    out.append(c);
    out
}

} // verus!
