//! The messages exchanged with the host launcher, as far as the plugin reads
//! or writes them.

use vstd::prelude::*;

verus! {

/// Where the host finds the icon of an entry.
#[derive(Debug, PartialEq, Eq)]
pub enum IconSource {
    /// An icon name or a path.
    Name(String),
    /// A mime type.
    Mime(String),
}

/// What an [`IconSource`] holds.
pub enum IconSourceView {
    Name(Seq<char>),
    Mime(Seq<char>),
}

impl View for IconSource {
    type V = IconSourceView;

    open spec fn view(&self) -> IconSourceView {
        match *self {
            IconSource::Name(name) => IconSourceView::Name(name@),
            IconSource::Mime(mime) => IconSourceView::Mime(mime@),
        }
    }
}

/// One entry of the list that the host shows.
#[derive(Debug, PartialEq, Eq)]
pub struct PluginSearchResult {
    /// The number by which the host names the entry when it is activated.
    pub id: u32,
    /// The title.
    pub name: String,
    /// The subtitle.
    pub description: String,
    /// Further words for the host to match against.
    pub keywords: Option<Vec<String>>,
    /// The icon to show.
    pub icon: Option<IconSource>,
    /// The command that the entry stands for.
    pub command: Option<String>,
    /// Generation and slot of the window that the entry stands for.
    pub window: Option<(u32, u32)>,
}

/// What a [`PluginSearchResult`] holds.
pub struct PluginSearchResultView {
    pub id: u32,
    pub name: Seq<char>,
    pub description: Seq<char>,
    pub keywords: Option<Seq<Seq<char>>>,
    pub icon: Option<IconSourceView>,
    pub command: Option<Seq<char>>,
    pub window: Option<(u32, u32)>,
}

impl View for PluginSearchResult {
    type V = PluginSearchResultView;

    open spec fn view(&self) -> PluginSearchResultView {
        PluginSearchResultView {
            id: self.id,
            name: self.name@,
            description: self.description@,
            keywords: match self.keywords {
                Some(words) => Some(words@.map_values(|word: String| word@)),
                None => None,
            },
            icon: match self.icon {
                Some(icon) => Some(icon@),
                None => None,
            },
            command: match self.command {
                Some(command) => Some(command@),
                None => None,
            },
            window: self.window,
        }
    }
}

/// A message from the plugin to the host.
#[derive(Debug, PartialEq, Eq)]
pub enum PluginResponse {
    /// Adds one entry to the list that the host shows.
    Append(PluginSearchResult),
    /// Asks the host to close.
    Close,
    /// Tells the host that the plugin has answered the query.
    Finished,
}

/// What a [`PluginResponse`] holds.
pub enum PluginResponseView {
    Append(PluginSearchResultView),
    Close,
    Finished,
}

impl View for PluginResponse {
    type V = PluginResponseView;

    open spec fn view(&self) -> PluginResponseView {
        match *self {
            PluginResponse::Append(entry) => PluginResponseView::Append(entry@),
            PluginResponse::Close => PluginResponseView::Close,
            PluginResponse::Finished => PluginResponseView::Finished,
        }
    }
}

/// A message from the host to the plugin.
#[derive(Debug, PartialEq, Eq)]
pub enum Request {
    /// The user chose the entry with this number.
    Activate(u32),
    /// The user abandoned the query.
    Interrupt,
    /// The user typed this text.
    Search(String),
    /// The plugin is to end.
    Exit,
    /// Any other request of the host; the plugin does not act on it.
    Other,
}

/// What a [`Request`] holds.
pub enum RequestView {
    Activate(u32),
    Interrupt,
    Search(Seq<char>),
    Exit,
    Other,
}

impl View for Request {
    type V = RequestView;

    open spec fn view(&self) -> RequestView {
        match *self {
            Request::Activate(id) => RequestView::Activate(id),
            Request::Interrupt => RequestView::Interrupt,
            Request::Search(text) => RequestView::Search(text@),
            Request::Exit => RequestView::Exit,
            Request::Other => RequestView::Other,
        }
    }
}

} // verus!
