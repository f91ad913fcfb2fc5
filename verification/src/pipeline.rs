//! Plans of media pipelines: which elements they consist of, in the order in which
//! they are linked, and how each is set up.

use vstd::prelude::*;

verus! {

/// A value in a format description.
#[derive(Debug)]
pub enum FieldValue {
    /// A text.
    Text(String),
    /// A number.
    Int(i32),
    /// A fraction.
    Fraction(i32, i32),
}

/// What a [`FieldValue`] says.
pub enum FieldView {
    /// A text.
    Text(Seq<char>),
    /// A number.
    Int(i32),
    /// A fraction.
    Fraction(i32, i32),
}

impl View for FieldValue {
    type V = FieldView;

    open spec fn view(&self) -> FieldView {
        match self {
            FieldValue::Text(t) => FieldView::Text(t@),
            FieldValue::Int(i) => FieldView::Int(*i),
            FieldValue::Fraction(n, d) => FieldView::Fraction(*n, *d),
        }
    }
}

/// A format that a pipeline asks for.
#[derive(Debug)]
pub struct CapsPlan {
    /// The media type.
    pub media: String,
    /// The kind of memory, where it matters.
    pub feature: Option<String>,
    /// The fields, each with its value.
    pub fields: Vec<(String, FieldValue)>,
}

/// What a [`CapsPlan`] says.
#[verifier::ext_equal]
pub struct CapsView {
    /// The media type.
    pub media: Seq<char>,
    /// The kind of memory, where it matters.
    pub feature: Option<Seq<char>>,
    /// The fields, each with its value.
    pub fields: Seq<(Seq<char>, FieldView)>,
}

/// A format of this media type.
pub open spec fn caps(media: Seq<char>) -> CapsView {
    CapsView { media, feature: None, fields: Seq::empty() }
}

impl CapsView {
    /// The same format in this kind of memory.
    pub open spec fn in_memory(self, feature: Seq<char>) -> CapsView {
        CapsView { feature: Some(feature), ..self }
    }

    /// The same format with one more field.
    pub open spec fn field(self, key: Seq<char>, value: FieldView) -> CapsView {
        CapsView { fields: self.fields.push((key, value)), ..self }
    }

    /// The same format with one more text field.
    pub open spec fn text(self, key: Seq<char>, value: Seq<char>) -> CapsView {
        self.field(key, FieldView::Text(value))
    }

    /// The same format with one more number field.
    pub open spec fn number(self, key: Seq<char>, value: i32) -> CapsView {
        self.field(key, FieldView::Int(value))
    }
}

/// What the fields of a format say.
pub open spec fn fields_view(fields: Seq<(String, FieldValue)>) -> Seq<(Seq<char>, FieldView)> {
    fields.map_values(|f: (String, FieldValue)| (f.0@, f.1@))
}

impl View for CapsPlan {
    type V = CapsView;

    open spec fn view(&self) -> CapsView {
        CapsView {
            media: self.media@,
            feature: match self.feature {
                Some(f) => Some(f@),
                None => None,
            },
            fields: fields_view(self.fields@),
        }
    }
}

impl CapsPlan {
    /// A format of this media type.
    pub fn new(media: &str) -> (r: CapsPlan)
        ensures
            r@ == caps(media@),
    {
        let r: CapsPlan = CapsPlan { media: media.to_owned(), feature: None, fields: Vec::new() };
        assert(r@ =~= caps(media@));
        r
    }

    /// The same format in this kind of memory.
    pub fn in_memory(self, feature: &str) -> (r: CapsPlan)
        ensures
            r@ == self@.in_memory(feature@),
    {
        CapsPlan { media: self.media, feature: Some(feature.to_owned()), fields: self.fields }
    }

    /// The same format with one more field.
    pub fn field(self, key: &str, value: FieldValue) -> (r: CapsPlan)
        ensures
            r@ == self@.field(key@, value@),
    {
        let ghost before = self@;
        let ghost said = value@;
        let mut fields: Vec<(String, FieldValue)> = self.fields;
        fields.push((key.to_owned(), value));
        let r: CapsPlan = CapsPlan { media: self.media, feature: self.feature, fields };
        assert(r@ =~= before.field(key@, said));
        r
    }

    /// The same format with one more text field.
    pub fn text(self, key: &str, value: &str) -> (r: CapsPlan)
        ensures
            r@ == self@.text(key@, value@),
    {
        self.field(key, FieldValue::Text(value.to_owned()))
    }

    /// The same format with one more number field.
    pub fn number(self, key: &str, value: i32) -> (r: CapsPlan)
        ensures
            r@ == self@.number(key@, value),
    {
        self.field(key, FieldValue::Int(value))
    }
}

/// The value of a property of an element.
#[derive(Debug)]
pub enum PropValue {
    /// A flag.
    Bool(bool),
    /// A signed number.
    Int(i32),
    /// An unsigned number.
    UInt(u32),
    /// A long unsigned number.
    ULong(u64),
    /// A text.
    Text(String),
    /// A text that the element itself reads as a value of the property.
    Parsed(String),
    /// A format.
    Caps(CapsPlan),
    /// A structure of this name with one flag in it.
    Flagged(String, String, bool),
}

/// What a [`PropValue`] says.
pub enum PropView {
    /// A flag.
    Bool(bool),
    /// A signed number.
    Int(i32),
    /// An unsigned number.
    UInt(u32),
    /// A long unsigned number.
    ULong(u64),
    /// A text.
    Text(Seq<char>),
    /// A text that the element itself reads as a value of the property.
    Parsed(Seq<char>),
    /// A format.
    Caps(CapsView),
    /// A structure of this name with one flag in it.
    Flagged(Seq<char>, Seq<char>, bool),
}

impl View for PropValue {
    type V = PropView;

    open spec fn view(&self) -> PropView {
        match self {
            PropValue::Bool(b) => PropView::Bool(*b),
            PropValue::Int(i) => PropView::Int(*i),
            PropValue::UInt(u) => PropView::UInt(*u),
            PropValue::ULong(u) => PropView::ULong(*u),
            PropValue::Text(t) => PropView::Text(t@),
            PropValue::Parsed(t) => PropView::Parsed(t@),
            PropValue::Caps(c) => PropView::Caps(c@),
            PropValue::Flagged(n, k, b) => PropView::Flagged(n@, k@, *b),
        }
    }
}

/// One element of a pipeline.
#[derive(Debug)]
pub struct Element {
    /// The kind of the element.
    pub factory: String,
    /// Its name in the pipeline, where it is given one.
    pub name: Option<String>,
    /// Its properties, in the order in which they are set.
    pub properties: Vec<(String, PropValue)>,
}

/// What an [`Element`] says.
#[verifier::ext_equal]
pub struct ElementView {
    /// The kind of the element.
    pub factory: Seq<char>,
    /// Its name in the pipeline, where it is given one.
    pub name: Option<Seq<char>>,
    /// Its properties, in the order in which they are set.
    pub properties: Seq<(Seq<char>, PropView)>,
}

/// An element of this kind and name, with nothing set.
pub open spec fn element(factory: Seq<char>, name: Seq<char>) -> ElementView {
    ElementView { factory, name: Some(name), properties: Seq::empty() }
}

/// An element of this kind, with nothing set and a name that the framework picks.
pub open spec fn unnamed(factory: Seq<char>) -> ElementView {
    ElementView { factory, name: None, properties: Seq::empty() }
}

impl ElementView {
    /// The same element with one more property.
    pub open spec fn with(self, key: Seq<char>, value: PropView) -> ElementView {
        ElementView { properties: self.properties.push((key, value)), ..self }
    }
}

/// Whether an element asks for a format with this value in this field.
pub open spec fn asks(e: ElementView, key: Seq<char>, value: FieldView) -> bool {
    exists|p: int, f: int|
        #![trigger e.properties[p], fields_of(e, p)[f]]
        0 <= p < e.properties.len() && 0 <= f < fields_of(e, p).len() && fields_of(e, p)[f] == (
            key,
            value,
        )
}

/// The fields of the format that a property of an element is, if it is one.
pub open spec fn fields_of(e: ElementView, p: int) -> Seq<(Seq<char>, FieldView)> {
    match e.properties[p].1 {
        PropView::Caps(c) => c.fields,
        _ => Seq::empty(),
    }
}

/// What the properties of an element say.
pub open spec fn properties_view(properties: Seq<(String, PropValue)>) -> Seq<
    (Seq<char>, PropView),
> {
    properties.map_values(|p: (String, PropValue)| (p.0@, p.1@))
}

impl View for Element {
    type V = ElementView;

    open spec fn view(&self) -> ElementView {
        ElementView {
            factory: self.factory@,
            name: match self.name {
                Some(n) => Some(n@),
                None => None,
            },
            properties: properties_view(self.properties@),
        }
    }
}

impl Element {
    /// An element of this kind and name, with nothing set.
    pub fn new(factory: &str, name: &str) -> (r: Element)
        ensures
            r@ == element(factory@, name@),
    {
        let r: Element = Element {
            factory: factory.to_owned(),
            name: Some(name.to_owned()),
            properties: Vec::new(),
        };
        assert(r@ =~= element(factory@, name@));
        r
    }

    /// An element of this kind, with nothing set and a name that the framework picks.
    pub fn unnamed(factory: &str) -> (r: Element)
        ensures
            r@ == unnamed(factory@),
    {
        let r: Element = Element {
            factory: factory.to_owned(),
            name: None,
            properties: Vec::new(),
        };
        assert(r@ =~= unnamed(factory@));
        r
    }

    /// The same element with one more property.
    pub fn with(self, key: &str, value: PropValue) -> (r: Element)
        ensures
            r@ == self@.with(key@, value@),
    {
        let ghost before = self@;
        let ghost said = value@;
        let mut properties: Vec<(String, PropValue)> = self.properties;
        properties.push((key.to_owned(), value));
        let r: Element = Element { factory: self.factory, name: self.name, properties };
        assert(r@ =~= before.with(key@, said));
        r
    }

    /// The same element with a flag set.
    pub fn with_bool(self, key: &str, value: bool) -> (r: Element)
        ensures
            r@ == self@.with(key@, PropView::Bool(value)),
    {
        self.with(key, PropValue::Bool(value))
    }

    /// The same element with a signed number set.
    pub fn with_int(self, key: &str, value: i32) -> (r: Element)
        ensures
            r@ == self@.with(key@, PropView::Int(value)),
    {
        self.with(key, PropValue::Int(value))
    }

    /// The same element with an unsigned number set.
    pub fn with_uint(self, key: &str, value: u32) -> (r: Element)
        ensures
            r@ == self@.with(key@, PropView::UInt(value)),
    {
        self.with(key, PropValue::UInt(value))
    }

    /// The same element with a long unsigned number set.
    pub fn with_ulong(self, key: &str, value: u64) -> (r: Element)
        ensures
            r@ == self@.with(key@, PropView::ULong(value)),
    {
        self.with(key, PropValue::ULong(value))
    }

    /// The same element with a text set.
    pub fn with_text(self, key: &str, value: &str) -> (r: Element)
        ensures
            r@ == self@.with(key@, PropView::Text(value@)),
    {
        self.with(key, PropValue::Text(value.to_owned()))
    }

    /// The same element with a property set from a text that it reads itself.
    pub fn with_parsed(self, key: &str, value: &str) -> (r: Element)
        ensures
            r@ == self@.with(key@, PropView::Parsed(value@)),
    {
        self.with(key, PropValue::Parsed(value.to_owned()))
    }

    /// The same element with its format set.
    pub fn with_caps(self, value: CapsPlan) -> (r: Element)
        ensures
            r@ == self@.with("caps"@, PropView::Caps(value@)),
    {
        self.with("caps", PropValue::Caps(value))
    }
}

/// What a row of elements says.
pub open spec fn elements_view(elements: Seq<Element>) -> Seq<ElementView> {
    elements.map_values(|e: Element| e@)
}

/// A row of elements that are linked one to the next.
#[derive(Debug)]
pub struct Chain {
    /// The elements.
    pub elements: Vec<Element>,
}

impl View for Chain {
    type V = Seq<ElementView>;

    open spec fn view(&self) -> Seq<ElementView> {
        elements_view(self.elements@)
    }
}

impl Chain {
    /// No elements yet.
    pub fn new() -> (r: Chain)
        ensures
            r@ == Seq::<ElementView>::empty(),
    {
        let r: Chain = Chain { elements: Vec::new() };
        assert(r@ =~= Seq::<ElementView>::empty());
        r
    }

    /// Puts one element at the end.
    pub fn push(&mut self, e: Element)
        ensures
            final(self)@ == old(self)@.push(e@),
    {
        let ghost before = self@;
        let ghost said = e@;
        self.elements.push(e);
        assert(self@ =~= before.push(said));
    }

    /// Puts the elements of another row at the end.
    pub fn append(&mut self, other: Chain)
        ensures
            final(self)@ == old(self)@ + other@,
    {
        let ghost before = self@;
        let ghost said = other@;
        let mut more: Vec<Element> = other.elements;
        self.elements.append(&mut more);
        assert(self@ =~= before + said);
    }
}

} // verus!
