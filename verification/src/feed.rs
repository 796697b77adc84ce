//! The feed document that is produced for each declared format, with its
//! items and their parts, as plain values.

use vstd::prelude::*;

verus! {

/// The channel image.
#[derive(Debug, PartialEq, Eq)]
pub struct FeedImage {
    pub url: String,
    pub title: String,
    pub link: String,
}

/// A namespace declared on the document: a prefix and the address it
/// stands for.
#[derive(Debug, PartialEq, Eq)]
pub struct Namespace {
    pub prefix: String,
    pub uri: String,
}

/// The platform block of the channel.
#[derive(Debug, PartialEq, Eq)]
pub struct ChannelExtension {
    pub author: String,
    pub category: String,
    pub image: String,
    pub explicit: bool,
    pub owner_name: String,
    pub owner_email: String,
    pub subtitle: String,
    pub summary: String,
    pub keywords: String,
}

/// An item's reference to its downloadable media.
#[derive(Debug, PartialEq, Eq)]
pub struct FeedEnclosure {
    pub url: String,
    pub mime_type: String,
    pub length: usize,
}

/// An item's identifier.
#[derive(Debug, PartialEq, Eq)]
pub struct FeedGuid {
    pub value: String,
    pub permalink: bool,
}

/// The platform block of an item.
#[derive(Debug, PartialEq, Eq)]
pub struct ItemExtension {
    pub author: String,
    pub image: String,
    pub duration: String,
    pub explicit: bool,
    pub subtitle: String,
    pub keywords: String,
}

/// An item's reference to a transcript, with the transcript's media type.
#[derive(Debug, PartialEq, Eq)]
pub struct Transcript {
    pub url: String,
    pub kind: String,
}

/// One episode as it appears in the feed of one format.
#[derive(Debug, PartialEq, Eq)]
pub struct FeedItem {
    pub title: String,
    pub description: String,
    pub author: String,
    pub pub_date: String,
    pub link: String,
    pub enclosure: FeedEnclosure,
    pub guid: FeedGuid,
    pub extension: ItemExtension,
    pub transcript: Option<Transcript>,
}

/// The feed of one declared format: the show's metadata and the items of
/// the episodes that have a file of that format.
#[derive(Debug, PartialEq, Eq)]
pub struct FeedDocument {
    pub format: String,
    pub title: String,
    pub link: String,
    pub description: String,
    pub language: String,
    pub copyright: String,
    pub managing_editor: String,
    pub pub_date: String,
    pub last_build_date: String,
    pub generator: String,
    pub image: FeedImage,
    pub extension: ChannelExtension,
    pub namespaces: Vec<Namespace>,
    pub items: Vec<FeedItem>,
}

/// Mathematical model of a [`FeedImage`].
pub struct FeedImageView {
    pub url: Seq<char>,
    pub title: Seq<char>,
    pub link: Seq<char>,
}

/// Mathematical model of a [`Namespace`].
pub struct NamespaceView {
    pub prefix: Seq<char>,
    pub uri: Seq<char>,
}

/// Mathematical model of a [`ChannelExtension`].
pub struct ChannelExtensionView {
    pub author: Seq<char>,
    pub category: Seq<char>,
    pub image: Seq<char>,
    pub explicit: bool,
    pub owner_name: Seq<char>,
    pub owner_email: Seq<char>,
    pub subtitle: Seq<char>,
    pub summary: Seq<char>,
    pub keywords: Seq<char>,
}

/// Mathematical model of a [`FeedEnclosure`].
pub struct FeedEnclosureView {
    pub url: Seq<char>,
    pub mime_type: Seq<char>,
    pub length: nat,
}

/// Mathematical model of a [`FeedGuid`].
pub struct FeedGuidView {
    pub value: Seq<char>,
    pub permalink: bool,
}

/// Mathematical model of an [`ItemExtension`].
pub struct ItemExtensionView {
    pub author: Seq<char>,
    pub image: Seq<char>,
    pub duration: Seq<char>,
    pub explicit: bool,
    pub subtitle: Seq<char>,
    pub keywords: Seq<char>,
}

/// Mathematical model of a [`Transcript`].
pub struct TranscriptView {
    pub url: Seq<char>,
    pub kind: Seq<char>,
}

/// Mathematical model of a [`FeedItem`].
pub struct FeedItemView {
    pub title: Seq<char>,
    pub description: Seq<char>,
    pub author: Seq<char>,
    pub pub_date: Seq<char>,
    pub link: Seq<char>,
    pub enclosure: FeedEnclosureView,
    pub guid: FeedGuidView,
    pub extension: ItemExtensionView,
    pub transcript: Option<TranscriptView>,
}

/// Mathematical model of a [`FeedDocument`].
pub struct FeedDocumentView {
    pub format: Seq<char>,
    pub title: Seq<char>,
    pub link: Seq<char>,
    pub description: Seq<char>,
    pub language: Seq<char>,
    pub copyright: Seq<char>,
    pub managing_editor: Seq<char>,
    pub pub_date: Seq<char>,
    pub last_build_date: Seq<char>,
    pub generator: Seq<char>,
    pub image: FeedImageView,
    pub extension: ChannelExtensionView,
    pub namespaces: Seq<NamespaceView>,
    pub items: Seq<FeedItemView>,
}

impl View for FeedImage {
    type V = FeedImageView;

    open spec fn view(&self) -> FeedImageView {
        FeedImageView { url: self.url@, title: self.title@, link: self.link@ }
    }
}

impl View for Namespace {
    type V = NamespaceView;

    open spec fn view(&self) -> NamespaceView {
        NamespaceView { prefix: self.prefix@, uri: self.uri@ }
    }
}

impl View for ChannelExtension {
    type V = ChannelExtensionView;

    open spec fn view(&self) -> ChannelExtensionView {
        ChannelExtensionView {
            author: self.author@,
            category: self.category@,
            image: self.image@,
            explicit: self.explicit,
            owner_name: self.owner_name@,
            owner_email: self.owner_email@,
            subtitle: self.subtitle@,
            summary: self.summary@,
            keywords: self.keywords@,
        }
    }
}

impl View for FeedEnclosure {
    type V = FeedEnclosureView;

    open spec fn view(&self) -> FeedEnclosureView {
        FeedEnclosureView {
            url: self.url@,
            mime_type: self.mime_type@,
            length: self.length as nat,
        }
    }
}

impl View for FeedGuid {
    type V = FeedGuidView;

    open spec fn view(&self) -> FeedGuidView {
        FeedGuidView { value: self.value@, permalink: self.permalink }
    }
}

impl View for ItemExtension {
    type V = ItemExtensionView;

    open spec fn view(&self) -> ItemExtensionView {
        ItemExtensionView {
            author: self.author@,
            image: self.image@,
            duration: self.duration@,
            explicit: self.explicit,
            subtitle: self.subtitle@,
            keywords: self.keywords@,
        }
    }
}

impl View for Transcript {
    type V = TranscriptView;

    open spec fn view(&self) -> TranscriptView {
        TranscriptView { url: self.url@, kind: self.kind@ }
    }
}

/// The view of an optional transcript reference.
pub open spec fn transcript_view(transcript: Option<Transcript>) -> Option<TranscriptView> {
    match transcript {
        Some(transcript) => Some(transcript@),
        None => None,
    }
}

impl View for FeedItem {
    type V = FeedItemView;

    open spec fn view(&self) -> FeedItemView {
        FeedItemView {
            title: self.title@,
            description: self.description@,
            author: self.author@,
            pub_date: self.pub_date@,
            link: self.link@,
            enclosure: self.enclosure@,
            guid: self.guid@,
            extension: self.extension@,
            transcript: transcript_view(self.transcript),
        }
    }
}

impl View for FeedDocument {
    type V = FeedDocumentView;

    open spec fn view(&self) -> FeedDocumentView {
        FeedDocumentView {
            format: self.format@,
            title: self.title@,
            link: self.link@,
            description: self.description@,
            language: self.language@,
            copyright: self.copyright@,
            managing_editor: self.managing_editor@,
            pub_date: self.pub_date@,
            last_build_date: self.last_build_date@,
            generator: self.generator@,
            image: self.image@,
            extension: self.extension@,
            namespaces: self.namespaces@.map_values(|namespace: Namespace| namespace@),
            items: self.items@.map_values(|item: FeedItem| item@),
        }
    }
}

} // verus!
