//! Rendering: from a feed document to its markup. The `rss` crate writes
//! the raw markup; the markup serializer then puts it into canonical form.
//!
//! The values of the `rss` crate are made field by field, one small step
//! for each of its types. What this module decides, and proves, is which
//! text of the document goes into which field.

use crate::feed::{
    FeedDocument, FeedDocumentView, FeedItem, FeedItemView, NamespaceView, TranscriptView,
};
use crate::markup::{canonical, format_xml, is_outcome, MarkupError, MarkupErrorView};
use vstd::prelude::*;
use vstd::utf8::encode_utf8;

verus! {

/// A channel of the `rss` crate. Like the four types after it, it is made
/// in one step from plain values and handed on; nothing in this crate looks
/// into it.
#[verifier::external_type_specification]
#[verifier::external_body]
pub struct ExChannel(rss::Channel);

/// An item of the `rss` crate.
#[verifier::external_type_specification]
#[verifier::external_body]
pub struct ExItem(rss::Item);

/// An extension element of the `rss` crate.
#[verifier::external_type_specification]
#[verifier::external_body]
pub struct ExExtension(rss::extension::Extension);

/// The platform block of a channel in the `rss` crate.
#[verifier::external_type_specification]
#[verifier::external_body]
pub struct ExChannelBlock(rss::extension::itunes::ITunesChannelExtension);

/// The platform block of an item in the `rss` crate.
#[verifier::external_type_specification]
#[verifier::external_body]
pub struct ExItemBlock(rss::extension::itunes::ITunesItemExtension);

/// The `rss` platform block of an item with these fields set.
pub uninterp spec fn item_block_value(
    author: Seq<char>,
    image: Seq<char>,
    duration: Seq<char>,
    explicit: Seq<char>,
    subtitle: Seq<char>,
    keywords: Seq<char>,
) -> rss::extension::itunes::ITunesItemExtension;

/// The `rss` extension element with this name and these attributes.
pub uninterp spec fn extension_value(
    name: Seq<char>,
    attributes: Seq<(Seq<char>, Seq<char>)>,
) -> rss::extension::Extension;

/// The `rss` item with these fields set, an enclosure with the address, the
/// length and the media type given, and an identifier with `guid` as its
/// value; its extension element, if any, is filed under `prefix` and
/// `local`.
pub uninterp spec fn item_value(
    title: Seq<char>,
    link: Seq<char>,
    description: Seq<char>,
    author: Seq<char>,
    pub_date: Seq<char>,
    url: Seq<char>,
    length: Seq<char>,
    mime_type: Seq<char>,
    guid: Seq<char>,
    permalink: bool,
    block: rss::extension::itunes::ITunesItemExtension,
    extension: Option<rss::extension::Extension>,
    prefix: Seq<char>,
    local: Seq<char>,
) -> rss::Item;

/// The `rss` platform block of a channel with these fields set, `category`
/// as its one category, and `owner_name` and `owner_email` as its owner.
pub uninterp spec fn channel_block_value(
    author: Seq<char>,
    category: Seq<char>,
    image: Seq<char>,
    explicit: Seq<char>,
    owner_name: Seq<char>,
    owner_email: Seq<char>,
    subtitle: Seq<char>,
    summary: Seq<char>,
    keywords: Seq<char>,
) -> rss::extension::itunes::ITunesChannelExtension;

/// The `rss` channel with these fields set, and an image with the address,
/// the title and the link given.
pub uninterp spec fn channel_value(
    title: Seq<char>,
    link: Seq<char>,
    description: Seq<char>,
    language: Seq<char>,
    copyright: Seq<char>,
    managing_editor: Seq<char>,
    pub_date: Seq<char>,
    last_build_date: Seq<char>,
    generator: Seq<char>,
    image_url: Seq<char>,
    image_title: Seq<char>,
    image_link: Seq<char>,
    block: rss::extension::itunes::ITunesChannelExtension,
    namespaces: Seq<(Seq<char>, Seq<char>)>,
    items: Seq<rss::Item>,
) -> rss::Channel;

/// The markup that the `rss` crate writes for a channel.
pub uninterp spec fn channel_markup(channel: rss::Channel) -> Seq<char>;

/// The views of a list of pairs of strings.
pub open spec fn text_pairs(pairs: Seq<(String, String)>) -> Seq<(Seq<char>, Seq<char>)> {
    pairs.map_values(|pair: (String, String)| (pair.0@, pair.1@))
}

/// The decimal digit for `d`.
pub open spec fn digit_of(d: int) -> char {
    if d == 0 {
        '0'
    } else if d == 1 {
        '1'
    } else if d == 2 {
        '2'
    } else if d == 3 {
        '3'
    } else if d == 4 {
        '4'
    } else if d == 5 {
        '5'
    } else if d == 6 {
        '6'
    } else if d == 7 {
        '7'
    } else if d == 8 {
        '8'
    } else {
        '9'
    }
}

/// The decimal numeral of `n`, without sign or padding.
pub open spec fn decimal_of(n: nat) -> Seq<char>
    decreases n,
{
    if n < 10 {
        seq![digit_of(n as int)]
    } else {
        decimal_of(n / 10).push(digit_of((n % 10) as int))
    }
}

/// The text of the explicit flag.
pub open spec fn explicit_text_of(explicit: bool) -> Seq<char> {
    if explicit {
        "true"@
    } else {
        "false"@
    }
}

/// The attributes of a transcript element: its kind, then its address.
pub open spec fn transcript_attributes(transcript: TranscriptView) -> Seq<(Seq<char>, Seq<char>)> {
    seq![("type"@, transcript.kind), ("url"@, transcript.url)]
}

/// The extension element of an item: the transcript reference, if any.
pub open spec fn transcript_element(transcript: Option<TranscriptView>) -> Option<
    rss::extension::Extension,
> {
    match transcript {
        Some(transcript) => Some(
            extension_value("podcast:transcript"@, transcript_attributes(transcript)),
        ),
        None => None,
    }
}

/// The `rss` item that stands for `item`.
pub open spec fn item_as_rss(item: FeedItemView) -> rss::Item {
    item_value(
        item.title,
        item.link,
        item.description,
        item.author,
        item.pub_date,
        item.enclosure.url,
        decimal_of(item.enclosure.length),
        item.enclosure.mime_type,
        item.guid.value,
        item.guid.permalink,
        item_block_value(
            item.extension.author,
            item.extension.image,
            item.extension.duration,
            explicit_text_of(item.extension.explicit),
            item.extension.subtitle,
            item.extension.keywords,
        ),
        transcript_element(item.transcript),
        "podcast"@,
        "ext:name"@,
    )
}

/// The `rss` channel that stands for `document`.
pub open spec fn channel_as_rss(document: FeedDocumentView) -> rss::Channel {
    channel_value(
        document.title,
        document.link,
        document.description,
        document.language,
        document.copyright,
        document.managing_editor,
        document.pub_date,
        document.last_build_date,
        document.generator,
        document.image.url,
        document.image.title,
        document.image.link,
        channel_block_value(
            document.extension.author,
            document.extension.category,
            document.extension.image,
            explicit_text_of(document.extension.explicit),
            document.extension.owner_name,
            document.extension.owner_email,
            document.extension.subtitle,
            document.extension.summary,
            document.extension.keywords,
        ),
        document.namespaces.map_values(
            |namespace: NamespaceView| (namespace.prefix, namespace.uri),
        ),
        document.items.map_values(|item: FeedItemView| item_as_rss(item)),
    )
}

/// The raw markup of `document`, as the `rss` crate writes it.
pub open spec fn raw_markup_of(document: FeedDocumentView) -> Seq<char> {
    channel_markup(channel_as_rss(document))
}

/// The canonical markup of `document`, or the error that serialising it
/// ends with.
pub open spec fn serialized(document: FeedDocumentView) -> Result<Seq<char>, MarkupErrorView> {
    canonical(encode_utf8(raw_markup_of(document)))
}

/// Makes an `ITunesItemExtension` of the `rss` crate with the six fields
/// given and every other field at its default.
#[verifier::external_body]
fn rss_item_block(
    author: String,
    image: String,
    duration: String,
    explicit: String,
    subtitle: String,
    keywords: String,
) -> (made: rss::extension::itunes::ITunesItemExtension)
    ensures
        made == item_block_value(author@, image@, duration@, explicit@, subtitle@, keywords@),
{
    rss::extension::itunes::ITunesItemExtension {
        author: Some(author),
        image: Some(image),
        duration: Some(duration),
        explicit: Some(explicit),
        subtitle: Some(subtitle),
        keywords: Some(keywords),
        ..Default::default()
    }
}

/// Makes an `rss::extension::Extension` with the name and the attributes
/// given, without content or children.
#[verifier::external_body]
fn rss_extension(name: String, attributes: Vec<(String, String)>) -> (made:
    rss::extension::Extension)
    ensures
        made == extension_value(name@, text_pairs(attributes@)),
{
    rss::extension::Extension {
        name,
        attrs: attributes.into_iter().collect(),
        ..Default::default()
    }
}

/// Makes an `rss::Item` with the fields given and every other field at its
/// default. The item's `rss::Enclosure` is made of `url`, `length` and
/// `mime_type`, its `rss::Guid` of `guid` and `permalink`. The extension
/// element, if there is one, becomes the only entry of the item's extension
/// map, filed under `prefix` and `local`.
#[verifier::external_body]
fn rss_item(
    title: String,
    link: String,
    description: String,
    author: String,
    pub_date: String,
    url: String,
    length: String,
    mime_type: String,
    guid: String,
    permalink: bool,
    block: rss::extension::itunes::ITunesItemExtension,
    extension: Option<rss::extension::Extension>,
    prefix: String,
    local: String,
) -> (made: rss::Item)
    ensures
        made == item_value(
            title@,
            link@,
            description@,
            author@,
            pub_date@,
            url@,
            length@,
            mime_type@,
            guid@,
            permalink,
            block,
            extension,
            prefix@,
            local@,
        ),
{
    let filed = extension.map(|element| std::collections::BTreeMap::from([(local, vec![element])]));
    rss::Item {
        title: Some(title),
        link: Some(link),
        description: Some(description),
        author: Some(author),
        pub_date: Some(pub_date),
        enclosure: Some(rss::Enclosure { url, length, mime_type }),
        guid: Some(rss::Guid { value: guid, permalink }),
        itunes_ext: Some(block),
        extensions: filed.into_iter().map(|entries| (prefix.clone(), entries)).collect(),
        ..Default::default()
    }
}

/// Makes an `ITunesChannelExtension` of the `rss` crate with the fields
/// given, one category with the text `category` and no subcategory, an
/// owner with the name and the address given, and every other field at its
/// default.
#[verifier::external_body]
fn rss_channel_block(
    author: String,
    category: String,
    image: String,
    explicit: String,
    owner_name: String,
    owner_email: String,
    subtitle: String,
    summary: String,
    keywords: String,
) -> (made: rss::extension::itunes::ITunesChannelExtension)
    ensures
        made == channel_block_value(
            author@,
            category@,
            image@,
            explicit@,
            owner_name@,
            owner_email@,
            subtitle@,
            summary@,
            keywords@,
        ),
{
    let category = rss::extension::itunes::ITunesCategory { text: category, subcategory: None };
    let (name, email) = (Some(owner_name), Some(owner_email));
    rss::extension::itunes::ITunesChannelExtension {
        author: Some(author),
        categories: vec![category],
        image: Some(image),
        explicit: Some(explicit),
        owner: Some(rss::extension::itunes::ITunesOwner { name, email }),
        subtitle: Some(subtitle),
        summary: Some(summary),
        keywords: Some(keywords),
        ..Default::default()
    }
}

/// Makes an `rss::Channel` with the fields given and every other field at
/// its default. The channel's `rss::Image` is made of `image_url`,
/// `image_title` and `image_link`, with its other fields at their defaults.
#[verifier::external_body]
fn rss_channel(
    title: String,
    link: String,
    description: String,
    language: String,
    copyright: String,
    managing_editor: String,
    pub_date: String,
    last_build_date: String,
    generator: String,
    image_url: String,
    image_title: String,
    image_link: String,
    block: rss::extension::itunes::ITunesChannelExtension,
    namespaces: Vec<(String, String)>,
    items: Vec<rss::Item>,
) -> (made: rss::Channel)
    ensures
        made == channel_value(
            title@,
            link@,
            description@,
            language@,
            copyright@,
            managing_editor@,
            pub_date@,
            last_build_date@,
            generator@,
            image_url@,
            image_title@,
            image_link@,
            block,
            text_pairs(namespaces@),
            items@,
        ),
{
    let image =
        rss::Image { url: image_url, title: image_title, link: image_link, ..Default::default() };
    rss::Channel {
        title, link, description, items,
        language: Some(language),
        copyright: Some(copyright),
        managing_editor: Some(managing_editor),
        pub_date: Some(pub_date),
        last_build_date: Some(last_build_date),
        generator: Some(generator),
        image: Some(image),
        itunes_ext: Some(block),
        namespaces: namespaces.into_iter().collect(),
        ..Default::default()
    }
}

/// Writes a channel as markup with the `rss` crate (`to_string`). The text
/// depends on the channel alone; the contract names it.
#[verifier::external_body]
fn rss_markup(channel: &rss::Channel) -> (markup: String)
    ensures
        markup@ == channel_markup(*channel),
{
    channel.to_string()
}

/// The text of one decimal digit.
fn digit_text(d: usize) -> (text: &'static str)
    requires
        d < 10,
    ensures
        text@ == seq![digit_of(d as int)],
{
    proof {
        reveal_strlit("0");
        reveal_strlit("1");
        reveal_strlit("2");
        reveal_strlit("3");
        reveal_strlit("4");
        reveal_strlit("5");
        reveal_strlit("6");
        reveal_strlit("7");
        reveal_strlit("8");
        reveal_strlit("9");
    }
    let text = if d == 0 {
        "0"
    } else if d == 1 {
        "1"
    } else if d == 2 {
        "2"
    } else if d == 3 {
        "3"
    } else if d == 4 {
        "4"
    } else if d == 5 {
        "5"
    } else if d == 6 {
        "6"
    } else if d == 7 {
        "7"
    } else if d == 8 {
        "8"
    } else {
        "9"
    };
    assert(text@ =~= seq![digit_of(d as int)]);
    text
}

/// Writes `n` as a decimal numeral.
pub fn decimal_text(n: usize) -> (text: String)
    ensures
        text@ == decimal_of(n as nat),
    decreases n,
{
    if n < 10 {
        String::from_str(digit_text(n))
    } else {
        let mut text = decimal_text(n / 10);
        text.append(digit_text(n % 10));
        text
    }
}

/// Writes the explicit flag as text.
pub fn explicit_text(explicit: bool) -> (text: String)
    ensures
        text@ == explicit_text_of(explicit),
{
    if explicit {
        String::from_str("true")
    } else {
        String::from_str("false")
    }
}

/// Makes the `rss` item that stands for `item`.
fn item_to_rss(item: &FeedItem) -> (made: rss::Item)
    ensures
        made == item_as_rss(item@),
{
    let block = rss_item_block(
        item.extension.author.clone(),
        item.extension.image.clone(),
        item.extension.duration.clone(),
        explicit_text(item.extension.explicit),
        item.extension.subtitle.clone(),
        item.extension.keywords.clone(),
    );
    let element = match &item.transcript {
        Some(transcript) => {
            let mut attributes: Vec<(String, String)> = Vec::new();
            attributes.push((String::from_str("type"), transcript.kind.clone()));
            attributes.push((String::from_str("url"), transcript.url.clone()));
            proof {
                assert(text_pairs(attributes@) =~= transcript_attributes(transcript@));
            }
            Some(rss_extension(String::from_str("podcast:transcript"), attributes))
        },
        None => None,
    };
    rss_item(
        item.title.clone(),
        item.link.clone(),
        item.description.clone(),
        item.author.clone(),
        item.pub_date.clone(),
        item.enclosure.url.clone(),
        decimal_text(item.enclosure.length),
        item.enclosure.mime_type.clone(),
        item.guid.value.clone(),
        item.guid.permalink,
        block,
        element,
        String::from_str("podcast"),
        String::from_str("ext:name"),
    )
}

/// Renders `document` as raw markup: the `rss` crate writes the channel
/// that is made, field by field, from the document.
pub fn render_raw(document: &FeedDocument) -> (markup: String)
    ensures
        markup@ == raw_markup_of(document@),
{
    let mut items: Vec<rss::Item> = Vec::new();
    let mut i: usize = 0;
    while i < document.items.len()
        invariant
            0 <= i <= document.items.len(),
            items@.len() == i,
            forall|n: int| 0 <= n < i ==> #[trigger] items@[n] == item_as_rss(document.items@[n]@),
        decreases document.items.len() - i,
    {
        items.push(item_to_rss(&document.items[i]));
        i = i + 1;
    }
    let mut namespaces: Vec<(String, String)> = Vec::new();
    let mut k: usize = 0;
    while k < document.namespaces.len()
        invariant
            0 <= k <= document.namespaces.len(),
            namespaces@.len() == k,
            forall|n: int|
                0 <= n < k ==> {
                    &&& (#[trigger] namespaces@[n]).0@ == document.namespaces@[n].prefix@
                    &&& namespaces@[n].1@ == document.namespaces@[n].uri@
                },
        decreases document.namespaces.len() - k,
    {
        let namespace = &document.namespaces[k];
        namespaces.push((namespace.prefix.clone(), namespace.uri.clone()));
        k = k + 1;
    }
    proof {
        assert(items@ =~= document@.items.map_values(|item: FeedItemView| item_as_rss(item)));
        assert(text_pairs(namespaces@) =~= document@.namespaces.map_values(
            |namespace: NamespaceView| (namespace.prefix, namespace.uri),
        ));
    }
    let block = rss_channel_block(
        document.extension.author.clone(),
        document.extension.category.clone(),
        document.extension.image.clone(),
        explicit_text(document.extension.explicit),
        document.extension.owner_name.clone(),
        document.extension.owner_email.clone(),
        document.extension.subtitle.clone(),
        document.extension.summary.clone(),
        document.extension.keywords.clone(),
    );
    let channel = rss_channel(
        document.title.clone(),
        document.link.clone(),
        document.description.clone(),
        document.language.clone(),
        document.copyright.clone(),
        document.managing_editor.clone(),
        document.pub_date.clone(),
        document.last_build_date.clone(),
        document.generator.clone(),
        document.image.url.clone(),
        document.image.title.clone(),
        document.image.link.clone(),
        block,
        namespaces,
        items,
    );
    rss_markup(&channel)
}

/// Serialises `document`: renders it as raw markup and puts that into
/// canonical form. The outcome depends on the document alone.
pub fn serialize(document: &FeedDocument) -> (outcome: Result<String, MarkupError>)
    ensures
        is_outcome(outcome, serialized(document@)),
{
    let raw = render_raw(document);
    format_xml(raw.as_str().as_bytes())
}

/// Serialising the same document twice ends alike: with the same text,
/// character for character, or with the same error.
pub proof fn law_serializing_twice_agrees(
    document: FeedDocument,
    first: Result<String, MarkupError>,
    second: Result<String, MarkupError>,
)
    requires
        is_outcome(first, serialized(document@)),
        is_outcome(second, serialized(document@)),
    ensures
        first is Ok <==> second is Ok,
        first is Ok ==> first->Ok_0@ == second->Ok_0@,
        first is Err ==> first->Err_0@ == second->Err_0@,
{
}

} // verus!
