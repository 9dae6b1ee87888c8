use vstd::prelude::*;
use quick_xml::events::{BytesCData, BytesEnd, BytesRef, BytesStart, BytesText, Event};
use quick_xml::Reader;
use crate::text::{string_views, text_is};

verus! {

#[verifier::external_type_specification]
#[verifier::external_body]
#[verifier::reject_recursive_types(R)]
pub struct ExReader<R>(Reader<R>);

#[verifier::external_type_specification]
#[verifier::external_body]
pub struct ExBytesStart<'i>(BytesStart<'i>);

#[verifier::external_type_specification]
#[verifier::external_body]
pub struct ExBytesEnd<'i>(BytesEnd<'i>);

#[verifier::external_type_specification]
#[verifier::external_body]
pub struct ExBytesText<'i>(BytesText<'i>);

#[verifier::external_type_specification]
#[verifier::external_body]
pub struct ExBytesCData<'i>(BytesCData<'i>);

#[verifier::external_type_specification]
#[verifier::external_body]
pub struct ExBytesRef<'i>(BytesRef<'i>);

#[verifier::external_type_specification]
#[verifier::external_body]
pub struct ExBytesDecl<'i>(quick_xml::events::BytesDecl<'i>);

#[verifier::external_type_specification]
#[verifier::external_body]
pub struct ExBytesPI<'i>(quick_xml::events::BytesPI<'i>);

#[verifier::external_type_specification]
pub struct ExEvent<'i>(Event<'i>);

/// Relies on `Reader::from_str`: a reader positioned at the start of `text`.
#[verifier::external_body]
fn open_reader<'a>(text: &'a str) -> Reader<&'a [u8]> {
    Reader::from_str(text)
}

/// Relies on `Reader::read_event`: the next event, `None` where the reader reports
/// an error.
#[verifier::external_body]
fn next_event<'a>(reader: &mut Reader<&'a [u8]>) -> Option<Event<'a>> {
    reader.read_event().ok()
}

/// Relies on `BytesStart::name`: the tag name as written.
#[verifier::external_body]
fn start_name(e: &BytesStart) -> String {
    e.name().as_ref().to_string()
}

/// Relies on `BytesStart::try_get_attribute` and `Attribute::normalized_value`:
/// the value of the attribute `key` with its references resolved, `None` when
/// the attribute is absent or cannot be read.
#[verifier::external_body]
fn start_attribute(e: &BytesStart, key: &str) -> Option<String> {
    e.try_get_attribute(key).ok().flatten().and_then(|a| a.normalized_value(quick_xml::XmlVersion::Implicit1_0).ok()).map(
        |v| v.into_owned(),
    )
}

/// Relies on `BytesEnd::name`: the tag name as written.
#[verifier::external_body]
fn end_name(e: &BytesEnd) -> String {
    e.name().as_ref().to_string()
}

/// Relies on `BytesText::xml10_content`: the character data with line ends
/// normalized.
#[verifier::external_body]
fn text_content(e: &BytesText) -> String {
    e.xml10_content().into_owned()
}

/// Relies on `BytesCData::xml10_content`: the section's characters with line ends
/// normalized.
#[verifier::external_body]
fn cdata_content(e: &BytesCData) -> String {
    e.xml10_content().into_owned()
}

/// Relies on `BytesRef::resolve_char_ref`: `Some(Some(c))` for a character
/// reference, `Some(None)` for a named one, `None` for a malformed number.
#[verifier::external_body]
fn char_reference(e: &BytesRef) -> Option<Option<String>> {
    e.resolve_char_ref().ok().map(|c| c.map(|c| c.to_string()))
}

/// Relies on `BytesRef`'s dereference to `str`: the name between `&` and `;`.
#[verifier::external_body]
fn reference_name(e: &BytesRef) -> String {
    e.to_string()
}

/// The kind of document a link points to, from its `type` attribute.
#[derive(Clone, Copy, Debug, PartialEq, Eq, Structural)]
pub enum LinkType {
    Home,
    Pdf,
    Unknown,
}

/// `text/html` is the home page, `application/pdf` the paper; anything else is
/// unrecognized.
pub open spec fn link_type_of(kind: Option<Seq<char>>) -> Option<LinkType> {
    match kind {
        None => None,
        Some(k) => if k == "text/html"@ {
            Some(LinkType::Home)
        } else if k == "application/pdf"@ {
            Some(LinkType::Pdf)
        } else {
            Some(LinkType::Unknown)
        },
    }
}

pub struct LinkModel {
    pub href: Seq<char>,
    pub kind: Option<LinkType>,
}

/// One `link` element: its target and its classification.
#[derive(Debug)]
pub struct LinkField {
    pub link: String,
    pub link_type: Option<LinkType>,
}

impl View for LinkField {
    type V = LinkModel;

    open spec fn view(&self) -> LinkModel {
        LinkModel { href: self.link@, kind: self.link_type }
    }
}

pub struct EntryModel {
    pub title: Seq<char>,
    pub summary: Seq<char>,
    pub authors: Seq<Seq<char>>,
    pub published: Seq<char>,
    pub links: Seq<LinkModel>,
}

/// One `entry` element as read: scalar fields as text, and every `author` name
/// and every `link` in document order.
#[derive(Debug)]
pub struct ArxivEntry {
    pub title: String,
    pub summary: String,
    pub authors: Vec<String>,
    pub published: String,
    pub links: Vec<LinkField>,
}

pub open spec fn link_views(v: Seq<LinkField>) -> Seq<LinkModel> {
    v.map_values(|l: LinkField| l@)
}

impl View for ArxivEntry {
    type V = EntryModel;

    open spec fn view(&self) -> EntryModel {
        EntryModel {
            title: self.title@,
            summary: self.summary@,
            authors: string_views(self.authors@),
            published: self.published@,
            links: link_views(self.links@),
        }
    }
}

pub open spec fn entry_views(v: Seq<ArxivEntry>) -> Seq<EntryModel> {
    v.map_values(|e: ArxivEntry| e@)
}

/// A decoded feed: its entries in document order.
#[derive(Debug)]
pub struct ArxivDocument {
    pub entries: Vec<ArxivEntry>,
}

impl ArxivDocument {
    /// The document with no entries, which stands for a page that could not be
    /// decoded.
    pub fn empty() -> (r: ArxivDocument)
        ensures
            r.entries@.len() == 0,
    {
        ArxivDocument { entries: Vec::new() }
    }
}

/// One step of reading XML, with only what the decoder looks at.
#[derive(Debug)]
pub enum XmlToken {
    /// An opening tag, with its `href` and `type` attributes.
    Start { name: String, href: Option<String>, kind: Option<String> },
    /// A tag that opens and closes at once.
    Empty { name: String, href: Option<String>, kind: Option<String> },
    /// A closing tag.
    End { name: String },
    /// Character data, a CDATA section or a resolved reference.
    Text { text: String },
    /// A comment, declaration, processing instruction or doctype.
    Skip,
    /// The end of the input.
    Finish,
    /// A syntax error or a reference that cannot be resolved.
    Malformed,
}

#[derive(Clone, Copy, Debug, PartialEq, Eq, Structural)]
pub enum DecodeStatus {
    Reading,
    Finished,
    Failed,
}

/// The decoder's state: the names of the open elements from the root down, the
/// entries closed so far, the entry being read, and whether it is done.
pub struct DecoderModel {
    pub stack: Seq<Seq<char>>,
    pub entries: Seq<EntryModel>,
    pub current: EntryModel,
    pub status: DecodeStatus,
}

/// The entry field that character data at a given place fills.
#[derive(Clone, Copy, Debug, PartialEq, Eq, Structural)]
pub enum Field {
    Title,
    Summary,
    Published,
    AuthorName,
    NoField,
}

pub open spec fn empty_entry() -> EntryModel {
    EntryModel {
        title: Seq::empty(),
        summary: Seq::empty(),
        authors: Seq::empty(),
        published: Seq::empty(),
        links: Seq::empty(),
    }
}

pub open spec fn initial_model() -> DecoderModel {
    DecoderModel {
        stack: Seq::empty(),
        entries: Seq::empty(),
        current: empty_entry(),
        status: DecodeStatus::Reading,
    }
}

/// The open elements are the root and an `entry` directly inside it, maybe more.
pub open spec fn in_entry(stack: Seq<Seq<char>>) -> bool {
    stack.len() >= 2 && stack[1] == "entry"@
}

/// Text directly inside `entry/title`, `entry/summary`, `entry/published` or
/// `entry/author/name` fills that field; text anywhere else is ignored.
pub open spec fn text_field(stack: Seq<Seq<char>>) -> Field {
    if stack.len() == 3 && in_entry(stack) {
        if stack[2] == "title"@ {
            Field::Title
        } else if stack[2] == "summary"@ {
            Field::Summary
        } else if stack[2] == "published"@ {
            Field::Published
        } else {
            Field::NoField
        }
    } else if stack.len() == 4 && in_entry(stack) && stack[2] == "author"@ && stack[3]
        == "name"@ {
        Field::AuthorName
    } else {
        Field::NoField
    }
}

/// The text of a field; for an author's name, that of the last author.
pub open spec fn get_field(e: EntryModel, f: Field) -> Seq<char> {
    match f {
        Field::Title => e.title,
        Field::Summary => e.summary,
        Field::Published => e.published,
        Field::AuthorName => if e.authors.len() > 0 {
            e.authors.last()
        } else {
            Seq::empty()
        },
        Field::NoField => Seq::empty(),
    }
}

pub open spec fn set_field(e: EntryModel, f: Field, v: Seq<char>) -> EntryModel {
    match f {
        Field::Title => EntryModel { title: v, ..e },
        Field::Summary => EntryModel { summary: v, ..e },
        Field::Published => EntryModel { published: v, ..e },
        Field::AuthorName => if e.authors.len() > 0 {
            EntryModel { authors: e.authors.update(e.authors.len() - 1, v), ..e }
        } else {
            e
        },
        Field::NoField => e,
    }
}

/// XML whitespace.
pub open spec fn is_xml_space(c: char) -> bool {
    c == ' ' || c == '\t' || c == '\n' || c == '\r'
}

pub open spec fn trim_start(s: Seq<char>) -> Seq<char>
    decreases s.len(),
{
    if s.len() > 0 && is_xml_space(s[0]) {
        trim_start(s.drop_first())
    } else {
        s
    }
}

pub open spec fn trim_end(s: Seq<char>) -> Seq<char>
    decreases s.len(),
{
    if s.len() > 0 && is_xml_space(s.last()) {
        trim_end(s.drop_last())
    } else {
        s
    }
}

/// `s` without XML whitespace at either end.
pub open spec fn trim_xml(s: Seq<char>) -> Seq<char> {
    trim_end(trim_start(s))
}

pub open spec fn opt_view(o: Option<String>) -> Option<Seq<char>> {
    match o {
        Some(s) => Some(s@),
        None => None,
    }
}

/// The link described by a tag's `href` and `type` attributes.
pub open spec fn link_model(href: Option<String>, kind: Option<String>) -> LinkModel {
    LinkModel {
        href: match href {
            Some(h) => h@,
            None => Seq::empty(),
        },
        kind: link_type_of(opt_view(kind)),
    }
}

/// Opening `name`: an `entry` in the root starts a fresh entry; an `author` or
/// `link` in an entry adds one more author or link; a field element starts its
/// text afresh, so that the last occurrence of a field is the one kept.
pub open spec fn opened(m: DecoderModel, name: Seq<char>, link: LinkModel) -> DecoderModel {
    let st = m.stack;
    let c0 = if st.len() == 1 && name == "entry"@ {
        empty_entry()
    } else if st.len() == 2 && in_entry(st) && name == "author"@ {
        EntryModel { authors: m.current.authors.push(Seq::empty()), ..m.current }
    } else if st.len() == 2 && in_entry(st) && name == "link"@ {
        EntryModel { links: m.current.links.push(link), ..m.current }
    } else {
        m.current
    };
    let st2 = st.push(name);
    DecoderModel { stack: st2, current: set_field(c0, text_field(st2), Seq::empty()), ..m }
}

/// Closing the innermost element: a field's text is trimmed, and a closed entry
/// joins the finished ones.
pub open spec fn closed(m: DecoderModel) -> DecoderModel {
    let st = m.stack;
    let f = text_field(st);
    let c1 = set_field(m.current, f, trim_xml(get_field(m.current, f)));
    if st.len() == 2 && in_entry(st) {
        DecoderModel {
            stack: st.drop_last(),
            entries: m.entries.push(c1),
            current: empty_entry(),
            ..m
        }
    } else {
        DecoderModel { stack: st.drop_last(), current: c1, ..m }
    }
}

pub open spec fn with_text(m: DecoderModel, t: Seq<char>) -> DecoderModel {
    let f = text_field(m.stack);
    DecoderModel { current: set_field(m.current, f, get_field(m.current, f) + t), ..m }
}

/// What one token does to the decoder.
pub open spec fn step(m: DecoderModel, t: XmlToken) -> DecoderModel {
    if m.status != DecodeStatus::Reading {
        m
    } else {
        match t {
            XmlToken::Start { name, href, kind } => opened(m, name@, link_model(href, kind)),
            XmlToken::Empty { name, href, kind } => closed(
                opened(m, name@, link_model(href, kind)),
            ),
            XmlToken::End { name } => if m.stack.len() > 0 && m.stack.last() == name@ {
                closed(m)
            } else {
                DecoderModel { status: DecodeStatus::Failed, ..m }
            },
            XmlToken::Text { text } => with_text(m, text@),
            XmlToken::Skip => m,
            XmlToken::Finish => if m.stack.len() == 0 {
                DecoderModel { status: DecodeStatus::Finished, ..m }
            } else {
                DecoderModel { status: DecodeStatus::Failed, ..m }
            },
            XmlToken::Malformed => DecoderModel { status: DecodeStatus::Failed, ..m },
        }
    }
}

/// The decoder after reading `tokens` from the start.
pub open spec fn run(tokens: Seq<XmlToken>) -> DecoderModel
    decreases tokens.len(),
{
    if tokens.len() == 0 {
        initial_model()
    } else {
        step(run(tokens.drop_last()), tokens.last())
    }
}

/// The entries of a token stream that ends well, with every element closed;
/// `None` for one that fails.
pub open spec fn decoded(tokens: Seq<XmlToken>) -> Option<Seq<EntryModel>> {
    let m = run(tokens);
    if m.status == DecodeStatus::Finished {
        Some(m.entries)
    } else {
        None
    }
}

} // verus!

verus! {

pub(crate) fn new_entry() -> (r: ArxivEntry)
    ensures
        r@ == empty_entry(),
{
    let r = ArxivEntry {
        title: String::new(),
        summary: String::new(),
        authors: Vec::new(),
        published: String::new(),
        links: Vec::new(),
    };
    assert(string_views(r.authors@) =~= Seq::empty());
    assert(link_views(r.links@) =~= Seq::empty());
    r
}

fn is_xml_space_char(c: char) -> (r: bool)
    ensures
        r == is_xml_space(c),
{
    c == ' ' || c == '\t' || c == '\n' || c == '\r'
}

/// `s` without XML whitespace at either end.
pub fn trim_xml_text(s: &str) -> (r: String)
    ensures
        r@ == trim_xml(s@),
{
    let n = s.unicode_len();
    let mut i: usize = 0;
    assert(s@.subrange(0, n as int) =~= s@);
    while i < n && is_xml_space_char(s.get_char(i))
        invariant
            n == s@.len(),
            i <= n,
            trim_start(s@) == trim_start(s@.subrange(i as int, n as int)),
        decreases n - i,
    {
        assert(s@.subrange(i as int, n as int).drop_first() =~= s@.subrange(i + 1, n as int));
        i = i + 1;
    }
    assert(trim_start(s@) == s@.subrange(i as int, n as int));
    let mut j: usize = n;
    while j > i && is_xml_space_char(s.get_char(j - 1))
        invariant
            n == s@.len(),
            i <= j <= n,
            trim_end(s@.subrange(i as int, n as int)) == trim_end(s@.subrange(i as int, j as int)),
        decreases j,
    {
        assert(s@.subrange(i as int, j as int).drop_last() =~= s@.subrange(i as int, j - 1));
        j = j - 1;
    }
    assert(trim_end(s@.subrange(i as int, j as int)) == s@.subrange(i as int, j as int));
    String::from_str(s.substring_char(i, j))
}

fn field_at(stack: &Vec<String>) -> (f: Field)
    ensures
        f == text_field(string_views(stack@)),
{
    let n = stack.len();
    if n == 3 && text_is(&stack[1], "entry") {
        if text_is(&stack[2], "title") {
            Field::Title
        } else if text_is(&stack[2], "summary") {
            Field::Summary
        } else if text_is(&stack[2], "published") {
            Field::Published
        } else {
            Field::NoField
        }
    } else if n == 4 && text_is(&stack[1], "entry") && text_is(&stack[2], "author") && text_is(
        &stack[3],
        "name",
    ) {
        Field::AuthorName
    } else {
        Field::NoField
    }
}

fn get_field_text(e: &ArxivEntry, f: Field) -> (r: String)
    ensures
        r@ == get_field(e@, f),
{
    match f {
        Field::Title => e.title.clone(),
        Field::Summary => e.summary.clone(),
        Field::Published => e.published.clone(),
        Field::AuthorName => if e.authors.len() > 0 {
            e.authors[e.authors.len() - 1].clone()
        } else {
            String::new()
        },
        Field::NoField => String::new(),
    }
}

fn set_field_text(e: &mut ArxivEntry, f: Field, v: String)
    ensures
        final(e)@ == set_field(old(e)@, f, v@),
{
    match f {
        Field::Title => {
            e.title = v;
        },
        Field::Summary => {
            e.summary = v;
        },
        Field::Published => {
            e.published = v;
        },
        Field::AuthorName => {
            if e.authors.len() > 0 {
                let k = e.authors.len() - 1;
                e.authors[k] = v;
                assert(string_views(e.authors@) =~= string_views(old(e).authors@).update(
                    k as int,
                    v@,
                ));
            }
        },
        Field::NoField => {},
    }
}

fn link_of(href: &Option<String>, kind: &Option<String>) -> (r: LinkField)
    ensures
        r@ == link_model(*href, *kind),
{
    proof {
        reveal_strlit("text/html");
        reveal_strlit("application/pdf");
    }
    let link = match href {
        Some(h) => h.clone(),
        None => String::new(),
    };
    let link_type = match kind {
        None => None,
        Some(k) => if text_is(k, "text/html") {
            Some(LinkType::Home)
        } else if text_is(k, "application/pdf") {
            Some(LinkType::Pdf)
        } else {
            Some(LinkType::Unknown)
        },
    };
    LinkField { link, link_type }
}

/// Reads a feed token by token: every `entry` of the root element, and in each
/// entry its scalar fields and all of its `author` and `link` elements.
pub struct XmlDecoder {
    stack: Vec<String>,
    entries: Vec<ArxivEntry>,
    current: ArxivEntry,
    status: DecodeStatus,
}

impl View for XmlDecoder {
    type V = DecoderModel;

    closed spec fn view(&self) -> DecoderModel {
        DecoderModel {
            stack: string_views(self.stack@),
            entries: entry_views(self.entries@),
            current: self.current@,
            status: self.status,
        }
    }
}

impl XmlDecoder {
    pub fn new() -> (d: XmlDecoder)
        ensures
            d@ == initial_model(),
    {
        let d = XmlDecoder {
            stack: Vec::new(),
            entries: Vec::new(),
            current: new_entry(),
            status: DecodeStatus::Reading,
        };
        assert(string_views(d.stack@) =~= Seq::empty());
        assert(entry_views(d.entries@) =~= Seq::empty());
        d
    }

    fn open(&mut self, name: &String, href: &Option<String>, kind: &Option<String>)
        ensures
            final(self)@ == opened(old(self)@, name@, link_model(*href, *kind)),
    {
        let n = self.stack.len();
        if n == 1 && text_is(name, "entry") {
            self.current = new_entry();
        } else if n == 2 && text_is(&self.stack[1], "entry") && text_is(name, "author") {
            self.current.authors.push(String::new());
            assert(string_views(self.current.authors@) =~= string_views(
                old(self).current.authors@,
            ).push(Seq::empty()));
        } else if n == 2 && text_is(&self.stack[1], "entry") && text_is(name, "link") {
            let l = link_of(href, kind);
            self.current.links.push(l);
            assert(link_views(self.current.links@) =~= link_views(old(self).current.links@).push(
                link_model(*href, *kind),
            ));
        }
        self.stack.push(name.clone());
        assert(string_views(self.stack@) =~= string_views(old(self).stack@).push(name@));
        let f = field_at(&self.stack);
        set_field_text(&mut self.current, f, String::new());
    }

    fn close(&mut self)
        requires
            old(self).stack@.len() > 0,
        ensures
            final(self)@ == closed(old(self)@),
    {
        let f = field_at(&self.stack);
        let t = get_field_text(&self.current, f);
        let trimmed = trim_xml_text(t.as_str());
        set_field_text(&mut self.current, f, trimmed);
        let n = self.stack.len();
        if n == 2 && text_is(&self.stack[1], "entry") {
            let mut done = new_entry();
            std::mem::swap(&mut done, &mut self.current);
            self.entries.push(done);
            assert(entry_views(self.entries@) =~= entry_views(old(self).entries@).push(done@));
        }
        self.stack.pop();
        assert(string_views(self.stack@) =~= string_views(old(self).stack@).drop_last());
    }

    fn add_text(&mut self, text: &String)
        ensures
            final(self)@ == with_text(old(self)@, text@),
    {
        let f = field_at(&self.stack);
        let mut t = get_field_text(&self.current, f);
        t.append(text.as_str());
        set_field_text(&mut self.current, f, t);
    }

    /// Takes one token.
    pub fn feed(&mut self, token: &XmlToken)
        ensures
            final(self)@ == step(old(self)@, *token),
    {
        if self.status != DecodeStatus::Reading {
            return;
        }
        match token {
            XmlToken::Start { name, href, kind } => {
                self.open(name, href, kind);
            },
            XmlToken::Empty { name, href, kind } => {
                self.open(name, href, kind);
                self.close();
            },
            XmlToken::End { name } => {
                let n = self.stack.len();
                if n > 0 && self.stack[n - 1] == *name {
                    self.close();
                } else {
                    self.status = DecodeStatus::Failed;
                }
            },
            XmlToken::Text { text } => {
                self.add_text(text);
            },
            XmlToken::Skip => {},
            XmlToken::Finish => {
                if self.stack.len() == 0 {
                    self.status = DecodeStatus::Finished;
                } else {
                    self.status = DecodeStatus::Failed;
                }
            },
            XmlToken::Malformed => {
                self.status = DecodeStatus::Failed;
            },
        }
    }

    /// Whether the decoder has stopped, at the end of the input or on an error.
    pub fn is_done(&self) -> (r: bool)
        ensures
            r == (self@.status != DecodeStatus::Reading),
    {
        self.status != DecodeStatus::Reading
    }

    /// The document, when the input ended with every element closed.
    pub fn finish(self) -> (r: Option<ArxivDocument>)
        ensures
            r is Some <==> self@.status == DecodeStatus::Finished,
            r is Some ==> entry_views(r->0.entries@) == self@.entries,
    {
        if self.status == DecodeStatus::Finished {
            Some(ArxivDocument { entries: self.entries })
        } else {
            None
        }
    }
}

} // verus!

verus! {

/// The five entities that XML predefines.
pub open spec fn predefined_entity(name: Seq<char>) -> Option<Seq<char>> {
    if name == "amp"@ {
        Some("&"@)
    } else if name == "lt"@ {
        Some("<"@)
    } else if name == "gt"@ {
        Some(">"@)
    } else if name == "quot"@ {
        Some("\""@)
    } else if name == "apos"@ {
        Some("'"@)
    } else {
        None
    }
}

/// The text that a predefined entity stands for.
pub fn resolve_entity(name: &String) -> (r: Option<String>)
    ensures
        opt_view(r) == predefined_entity(name@),
{
    if text_is(name, "amp") {
        Some(String::from_str("&"))
    } else if text_is(name, "lt") {
        Some(String::from_str("<"))
    } else if text_is(name, "gt") {
        Some(String::from_str(">"))
    } else if text_is(name, "quot") {
        Some(String::from_str("\""))
    } else if text_is(name, "apos") {
        Some(String::from_str("'"))
    } else {
        None
    }
}

fn reference_token(e: &BytesRef) -> XmlToken {
    match char_reference(e) {
        None => XmlToken::Malformed,
        Some(Some(c)) => XmlToken::Text { text: c },
        Some(None) => match resolve_entity(&reference_name(e)) {
            Some(text) => XmlToken::Text { text },
            None => XmlToken::Malformed,
        },
    }
}

/// The token for an event of the reader; `None` stands for a reader error.
fn token_of(event: Option<Event>) -> XmlToken {
    match event {
        None => XmlToken::Malformed,
        Some(Event::Start(e)) => XmlToken::Start {
            name: start_name(&e),
            href: start_attribute(&e, "href"),
            kind: start_attribute(&e, "type"),
        },
        Some(Event::Empty(e)) => XmlToken::Empty {
            name: start_name(&e),
            href: start_attribute(&e, "href"),
            kind: start_attribute(&e, "type"),
        },
        Some(Event::End(e)) => XmlToken::End { name: end_name(&e) },
        Some(Event::Text(e)) => XmlToken::Text { text: text_content(&e) },
        Some(Event::CData(e)) => XmlToken::Text { text: cdata_content(&e) },
        Some(Event::GeneralRef(e)) => reference_token(&e),
        Some(Event::Eof) => XmlToken::Finish,
        Some(_) => XmlToken::Skip,
    }
}

/// Decodes a token stream.
pub fn decode_tokens(tokens: &Vec<XmlToken>) -> (r: Option<ArxivDocument>)
    ensures
        match r {
            Some(doc) => decoded(tokens@) == Some(entry_views(doc.entries@)),
            None => decoded(tokens@) is None,
        },
{
    let mut d = XmlDecoder::new();
    let n = tokens.len();
    for i in 0..n
        invariant
            n == tokens@.len(),
            d@ == run(tokens@.take(i as int)),
    {
        assert(tokens@.take(i + 1).drop_last() =~= tokens@.take(i as int));
        d.feed(&tokens[i]);
    }
    assert(tokens@.take(n as int) =~= tokens@);
    d.finish()
}

/// Decodes a feed. The tokens come from quick-xml's reader, which hands out one
/// event at a time with its contents behind opaque values, so nothing here names
/// the events of a given text: whatever the reader yields, the result is what
/// `decode_tokens` makes of the token stream read. A reader takes at least one
/// byte for each event before the end, so reading stops after one more event
/// than the text has bytes in any case.
pub fn decode_document(text: &str) -> (r: Option<ArxivDocument>)
    ensures
        match r {
            Some(doc) => exists|toks: Seq<XmlToken>| #[trigger]
                decoded(toks) == Some(entry_views(doc.entries@)),
            None => exists|toks: Seq<XmlToken>| #[trigger] decoded(toks) is None,
        },
{
    let mut reader = open_reader(text);
    let mut d = XmlDecoder::new();
    let ghost mut toks: Seq<XmlToken> = Seq::empty();
    let limit: usize = if text.len() < usize::MAX {
        text.len() + 1
    } else {
        text.len()
    };
    let mut count: usize = 0;
    while !d.is_done() && count < limit
        invariant
            d@ == run(toks),
            count <= limit,
        decreases limit - count,
    {
        let t = token_of(next_event(&mut reader));
        let ghost before = toks;
        proof {
            toks = toks.push(t);
            assert(toks.drop_last() =~= before);
        }
        d.feed(&t);
        count = count + 1;
    }
    if !d.is_done() {
        let t = XmlToken::Malformed;
        let ghost before = toks;
        proof {
            toks = toks.push(t);
            assert(toks.drop_last() =~= before);
        }
        d.feed(&t);
    }
    let r = d.finish();
    proof {
        if r is Some {
            assert(decoded(toks) == Some(entry_views(r->0.entries@)));
        } else {
            assert(decoded(toks) is None);
        }
    }
    r
}

} // verus!

verus! {

/// Repeated children accumulate. Directly inside an entry, an `author` element
/// (written open or empty) adds one more author after those already read, and a
/// `link` element adds one more link, classified by its `type`; neither touches
/// what was read before. Closing an entry keeps all of them in the finished
/// entry.
pub proof fn lemma_repeated_children_accumulate(
    m: DecoderModel,
    name: String,
    href: Option<String>,
    kind: Option<String>,
)
    requires
        m.status == DecodeStatus::Reading,
        m.stack.len() == 2,
        in_entry(m.stack),
    ensures
        name@ == "author"@ ==> {
            &&& step(m, XmlToken::Start { name, href, kind }).current.authors
                == m.current.authors.push(Seq::empty())
            &&& step(m, XmlToken::Start { name, href, kind }).current.links == m.current.links
            &&& step(m, XmlToken::Empty { name, href, kind }).current.authors
                == m.current.authors.push(Seq::empty())
            &&& step(m, XmlToken::Empty { name, href, kind }).current.links == m.current.links
        },
        name@ == "link"@ ==> {
            &&& step(m, XmlToken::Start { name, href, kind }).current.links
                == m.current.links.push(link_model(href, kind))
            &&& step(m, XmlToken::Start { name, href, kind }).current.authors
                == m.current.authors
            &&& step(m, XmlToken::Empty { name, href, kind }).current.links
                == m.current.links.push(link_model(href, kind))
            &&& step(m, XmlToken::Empty { name, href, kind }).current.authors
                == m.current.authors
        },
        m.stack.last() == "entry"@ ==> step(m, XmlToken::End { name: name }).entries
            == (if name@ == "entry"@ {
            m.entries.push(m.current)
        } else {
            m.entries
        }),
{
    reveal_strlit("author");
    reveal_strlit("link");
    reveal_strlit("entry");
    reveal_strlit("title");
    reveal_strlit("summary");
    reveal_strlit("published");
    reveal_strlit("name");
    let st2 = m.stack.push(name@);
    assert(st2[1] == m.stack[1]);
    assert(st2[2] == name@);
    assert(text_field(m.stack) == Field::NoField);
}

} // verus!
