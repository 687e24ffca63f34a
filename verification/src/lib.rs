//! A validated factory for inline text nodes.
//!
//! A `TextNode` is the atomic unit of inline markup: a non-empty piece of
//! text together with its kind (plain, bold, italic, code, link or image).
//! Nodes are built only through `TextNode::new`, which resolves a string
//! tag to a variant, demands a URL for links and images, and rejects empty
//! content, reporting each failure as a typed `ConstructionError`.

use vstd::prelude::*;
use vstd::string::StrSliceExecFns;

verus! {

/// The kind of an inline text node. `Link` and `Image` carry the URL the
/// caller supplied; the other kinds carry nothing.
#[derive(Debug, PartialEq, Eq, Clone)]
pub enum TextType {
    Text,
    Link(String),
    Image(String),
    Bold,
    Italic,
    Code,
}

/// Mathematical model of a `TextType`: URLs as character sequences.
pub enum TextTypeView {
    Text,
    Link(Seq<char>),
    Image(Seq<char>),
    Bold,
    Italic,
    Code,
}

impl View for TextType {
    type V = TextTypeView;

    open spec fn view(&self) -> TextTypeView {
        match self {
            TextType::Text => TextTypeView::Text,
            TextType::Link(url) => TextTypeView::Link(url@),
            TextType::Image(url) => TextTypeView::Image(url@),
            TextType::Bold => TextTypeView::Bold,
            TextType::Italic => TextTypeView::Italic,
            TextType::Code => TextTypeView::Code,
        }
    }
}

/// Why `TextNode::new` refused its inputs.
#[derive(Debug, PartialEq, Eq, Clone, Copy)]
pub enum ConstructionError {
    /// The tag is not one of the six recognized tokens.
    InvalidType,
    /// The tag is `"link"` but no URL was supplied.
    MissingLinkUrl,
    /// The tag is `"image"` but no URL was supplied.
    MissingImageUrl,
    /// The content is empty (and the tag was otherwise valid).
    EmptyText,
}

/// The user-facing message for each error kind.
pub open spec fn spec_message(e: ConstructionError) -> Seq<char> {
    match e {
        ConstructionError::InvalidType => "invalid text type"@,
        ConstructionError::MissingLinkUrl => "Missing link url"@,
        ConstructionError::MissingImageUrl => "Missing image url"@,
        ConstructionError::EmptyText => "Text can not be empty"@,
    }
}

impl ConstructionError {
    /// A user-facing message naming what was wrong with the inputs.
    pub fn message(&self) -> (r: &'static str)
        ensures
            r@ == spec_message(*self),
    {
        match self {
            ConstructionError::InvalidType => "invalid text type",
            ConstructionError::MissingLinkUrl => "Missing link url",
            ConstructionError::MissingImageUrl => "Missing image url",
            ConstructionError::EmptyText => "Text can not be empty",
        }
    }
}

/// An immutable inline text node: non-empty content plus its kind.
#[derive(Debug, PartialEq, Eq, Clone)]
pub struct TextNode {
    text: String,
    text_type: TextType,
}

/// Mathematical model of a `TextNode`.
pub struct TextNodeView {
    pub text: Seq<char>,
    pub text_type: TextTypeView,
}

impl View for TextNode {
    type V = TextNodeView;

    closed spec fn view(&self) -> TextNodeView {
        TextNodeView { text: self.text@, text_type: self.text_type@ }
    }
}

impl TextNodeView {
    /// Every node the factory hands out satisfies this: its content is
    /// non-empty, and a link or image carries the URL it was built with
    /// by construction of `TextTypeView`.
    pub open spec fn wf(self) -> bool {
        self.text.len() > 0
    }
}

/// The six recognized tag tokens.
pub open spec fn is_recognized_tag(tag: Seq<char>) -> bool {
    ||| tag == "text"@
    ||| tag == "bold"@
    ||| tag == "italic"@
    ||| tag == "code"@
    ||| tag == "link"@
    ||| tag == "image"@
}

/// The tags whose variant carries a URL.
pub open spec fn tag_needs_url(tag: Seq<char>) -> bool {
    tag == "link"@ || tag == "image"@
}

/// Tag resolution, the factory's first step: map the tag to its variant,
/// demanding a URL for `link` and `image`. This happens before the
/// emptiness check on the content.
pub open spec fn resolve_tag(tag: Seq<char>, url: Option<Seq<char>>) -> Result<
    TextTypeView,
    ConstructionError,
> {
    if tag == "text"@ {
        Ok(TextTypeView::Text)
    } else if tag == "bold"@ {
        Ok(TextTypeView::Bold)
    } else if tag == "italic"@ {
        Ok(TextTypeView::Italic)
    } else if tag == "code"@ {
        Ok(TextTypeView::Code)
    } else if tag == "link"@ {
        match url {
            Some(u) => Ok(TextTypeView::Link(u)),
            None => Err(ConstructionError::MissingLinkUrl),
        }
    } else if tag == "image"@ {
        match url {
            Some(u) => Ok(TextTypeView::Image(u)),
            None => Err(ConstructionError::MissingImageUrl),
        }
    } else {
        Err(ConstructionError::InvalidType)
    }
}

/// What the factory returns, as a function of the input views: tag
/// resolution first, then the emptiness check on the content. The order
/// makes the errors deterministic: an invalid tag or missing URL is
/// reported even when the content is also empty.
pub open spec fn spec_new(text: Seq<char>, tag: Seq<char>, url: Option<Seq<char>>) -> Result<
    TextNodeView,
    ConstructionError,
> {
    match resolve_tag(tag, url) {
        Ok(tt) => if text.len() == 0 {
            Err(ConstructionError::EmptyText)
        } else {
            Ok(TextNodeView { text, text_type: tt })
        },
        Err(e) => Err(e),
    }
}

/// The view of an optional URL argument.
pub open spec fn url_view(url: Option<&str>) -> Option<Seq<char>> {
    match url {
        Some(u) => Some(u@),
        None => None,
    }
}

impl TextNode {
    /// The validated factory: resolves `text_type` to a variant (demanding
    /// a URL for `"link"` and `"image"`), then checks that `text` is
    /// non-empty, in that order.
    pub fn new(text: &str, text_type: &str, url: Option<&str>) -> (r: Result<
        TextNode,
        ConstructionError,
    >)
        ensures
            r matches Ok(node) ==> spec_new(text@, text_type@, url_view(url))
                == Ok::<TextNodeView, ConstructionError>(node@) && node@.wf(),
            r matches Err(e) ==> spec_new(text@, text_type@, url_view(url))
                == Err::<TextNodeView, ConstructionError>(e),
    {
        let tt: TextType = if str_eq(text_type, "text") {
            TextType::Text
        } else if str_eq(text_type, "bold") {
            TextType::Bold
        } else if str_eq(text_type, "italic") {
            TextType::Italic
        } else if str_eq(text_type, "code") {
            TextType::Code
        } else if str_eq(text_type, "link") {
            match url {
                Some(u) => TextType::Link(u.to_owned()),
                None => {
                    return Err(ConstructionError::MissingLinkUrl);
                },
            }
        } else if str_eq(text_type, "image") {
            match url {
                Some(u) => TextType::Image(u.to_owned()),
                None => {
                    return Err(ConstructionError::MissingImageUrl);
                },
            }
        } else {
            return Err(ConstructionError::InvalidType);
        };
        if text.is_empty() {
            return Err(ConstructionError::EmptyText);
        }
        Ok(TextNode { text: text.to_owned(), text_type: tt })
    }

    /// The node's text content.
    pub fn text(self) -> (r: String)
        ensures
            r@ == self@.text,
    {
        self.text
    }

    /// The node's variant.
    pub fn text_type(self) -> (r: TextType)
        ensures
            r@ == self@.text_type,
    {
        self.text_type
    }
}

/// String equality, decided character by character.
fn str_eq(a: &str, b: &str) -> (r: bool)
    ensures
        r == (a@ == b@),
{
    let a_len = a.unicode_len();
    let b_len = b.unicode_len();
    if a_len != b_len {
        return false;
    }
    let mut i: usize = 0;
    while i < a_len
        invariant
            a_len == a@.len(),
            b_len == b@.len(),
            a_len == b_len,
            i <= a_len,
            forall|j: int| 0 <= j < i ==> a@[j] == b@[j],
        decreases a_len - i,
    {
        if a.get_char(i) != b.get_char(i) {
            return false;
        }
        i += 1;
    }
    proof {
        assert(a@ =~= b@);
    }
    true
}

/// Lengths and first characters of the six tag tokens: together they
/// distinguish every pair, which the branch order of `resolve_tag` needs.
proof fn lemma_tag_literals()
    ensures
        "text"@.len() == 4 && "text"@[0] == 't',
        "bold"@.len() == 4 && "bold"@[0] == 'b',
        "italic"@.len() == 6 && "italic"@[0] == 'i',
        "code"@.len() == 4 && "code"@[0] == 'c',
        "link"@.len() == 4 && "link"@[0] == 'l',
        "image"@.len() == 5 && "image"@[0] == 'i',
{
    reveal_strlit("text");
    reveal_strlit("bold");
    reveal_strlit("italic");
    reveal_strlit("code");
    reveal_strlit("link");
    reveal_strlit("image");
}

/// For every recognized tag with non-empty content and (for `link` and
/// `image`) a present URL, construction succeeds, and the node carries
/// exactly the given content and the variant named by the tag, with the
/// given URL.
pub proof fn lemma_new_recognized_tag_succeeds(
    text: Seq<char>,
    tag: Seq<char>,
    url: Option<Seq<char>>,
)
    requires
        is_recognized_tag(tag),
        text.len() > 0,
        tag_needs_url(tag) ==> url is Some,
    ensures
        spec_new(text, tag, url) matches Ok(node) && node.text == text,
        tag == "text"@ ==> spec_new(text, tag, url)->Ok_0.text_type == TextTypeView::Text,
        tag == "bold"@ ==> spec_new(text, tag, url)->Ok_0.text_type == TextTypeView::Bold,
        tag == "italic"@ ==> spec_new(text, tag, url)->Ok_0.text_type == TextTypeView::Italic,
        tag == "code"@ ==> spec_new(text, tag, url)->Ok_0.text_type == TextTypeView::Code,
        tag == "link"@ ==> spec_new(text, tag, url)->Ok_0.text_type == TextTypeView::Link(
            url->Some_0,
        ),
        tag == "image"@ ==> spec_new(text, tag, url)->Ok_0.text_type == TextTypeView::Image(
            url->Some_0,
        ),
{
    lemma_tag_literals();
}

/// Every node the factory returns is well formed: its content is non-empty.
pub proof fn lemma_new_ok_wf(text: Seq<char>, tag: Seq<char>, url: Option<Seq<char>>)
    ensures
        spec_new(text, tag, url) matches Ok(node) ==> node.wf(),
{
}

/// A tag outside the six recognized tokens always fails with `InvalidType`,
/// whatever the content and the URL.
pub proof fn lemma_new_unrecognized_tag_fails(
    text: Seq<char>,
    tag: Seq<char>,
    url: Option<Seq<char>>,
)
    requires
        !is_recognized_tag(tag),
    ensures
        spec_new(text, tag, url) == Err::<TextNodeView, ConstructionError>(
            ConstructionError::InvalidType,
        ),
{
}

/// Tag `"link"` with no URL fails with `MissingLinkUrl`, whatever the
/// content: the URL check precedes the emptiness check.
pub proof fn lemma_new_link_missing_url(text: Seq<char>)
    ensures
        spec_new(text, "link"@, None) == Err::<TextNodeView, ConstructionError>(
            ConstructionError::MissingLinkUrl,
        ),
{
    lemma_tag_literals();
}

/// Tag `"image"` with no URL fails with `MissingImageUrl`, whatever the
/// content: the URL check precedes the emptiness check.
pub proof fn lemma_new_image_missing_url(text: Seq<char>)
    ensures
        spec_new(text, "image"@, None) == Err::<TextNodeView, ConstructionError>(
            ConstructionError::MissingImageUrl,
        ),
{
    lemma_tag_literals();
}

/// A recognized tag with empty content fails with `EmptyText`, provided a
/// link or image tag comes with its URL (a missing URL is reported first).
pub proof fn lemma_new_empty_text(text: Seq<char>, tag: Seq<char>, url: Option<Seq<char>>)
    requires
        text.len() == 0,
        is_recognized_tag(tag),
        tag_needs_url(tag) ==> url is Some,
    ensures
        spec_new(text, tag, url) == Err::<TextNodeView, ConstructionError>(
            ConstructionError::EmptyText,
        ),
{
    lemma_tag_literals();
}

/// Construction is deterministic: identical inputs give value-equal
/// results, so two calls of the factory on the same triple return either
/// two equal nodes or two equal errors.
pub proof fn lemma_new_deterministic(
    text1: Seq<char>,
    tag1: Seq<char>,
    url1: Option<Seq<char>>,
    text2: Seq<char>,
    tag2: Seq<char>,
    url2: Option<Seq<char>>,
)
    requires
        text1 == text2,
        tag1 == tag2,
        url1 == url2,
    ensures
        spec_new(text1, tag1, url1) == spec_new(text2, tag2, url2),
{
}

} // verus!
