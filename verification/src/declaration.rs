//! The structured description of a type that the generator consumes.

use vstd::prelude::*;

verus! {

/// One token of an attribute's bracketed argument.
#[derive(Debug, PartialEq, Eq)]
pub enum Token {
    /// An identifier that is not a reserved word, with its text.
    Ident(String),
    /// Anything else: punctuation, a literal, a reserved word or a
    /// delimited group.
    Other,
}

/// What a [`Token`] stands for in contracts.
pub enum TokenView {
    Ident(Seq<char>),
    Other,
}

impl View for Token {
    type V = TokenView;

    open spec fn view(&self) -> TokenView {
        match *self {
            Token::Ident(text) => TokenView::Ident(text@),
            Token::Other => TokenView::Other,
        }
    }
}

impl Clone for Token {
    fn clone(&self) -> (r: Self)
        ensures
            r@ == self@,
    {
        match self {
            Token::Ident(text) => Token::Ident(text.clone()),
            Token::Other => Token::Other,
        }
    }
}

/// One attribute of a declaration, such as `#[repr(u8)]`.
#[derive(Debug, PartialEq, Eq)]
pub struct Attribute {
    /// The attribute's name, where its path is a single identifier.
    pub name: Option<String>,
    /// The tokens between the brackets, where the attribute takes a
    /// bracketed argument; `None` for `#[name]` and `#[name = value]`.
    pub arguments: Option<Vec<Token>>,
}

/// What an [`Attribute`] stands for in contracts.
pub struct AttributeView {
    pub name: Option<Seq<char>>,
    pub arguments: Option<Seq<TokenView>>,
}

impl View for Attribute {
    type V = AttributeView;

    open spec fn view(&self) -> AttributeView {
        AttributeView {
            name: match self.name {
                Some(name) => Some(name@),
                None => None,
            },
            arguments: match self.arguments {
                Some(tokens) => Some(token_views(tokens@)),
                None => None,
            },
        }
    }
}

impl Clone for Attribute {
    fn clone(&self) -> (r: Self)
        ensures
            r@ == self@,
    {
        let name = match &self.name {
            Some(name) => Some(name.clone()),
            None => None,
        };
        let arguments = match &self.arguments {
            Some(tokens) => {
                let copy = tokens.clone();
                assert(token_views(copy@) =~= token_views(tokens@));
                Some(copy)
            },
            None => None,
        };
        Attribute { name, arguments }
    }
}

/// The views of a sequence of tokens, in order.
pub open spec fn token_views(tokens: Seq<Token>) -> Seq<TokenView> {
    tokens.map_values(|t: Token| t@)
}

/// The views of a sequence of attributes, in order.
pub open spec fn attribute_views(attributes: Seq<Attribute>) -> Seq<AttributeView> {
    attributes.map_values(|a: Attribute| a@)
}

/// The views of a sequence of identifiers, in order.
pub open spec fn text_views(texts: Seq<String>) -> Seq<Seq<char>> {
    texts.map_values(|t: String| t@)
}

/// The kind of type that a declaration introduces.
#[derive(Clone, Copy, Debug, PartialEq, Eq, Structural)]
pub enum DeclKind {
    Enumeration,
    Record,
    Union,
}

/// The declaration of the type that asks for the capability.
#[derive(Debug, PartialEq, Eq)]
pub struct Declaration {
    /// The type's name.
    pub name: String,
    /// Whether it is an enumeration, a record or a union.
    pub kind: DeclKind,
    /// Its attributes, in source order.
    pub attributes: Vec<Attribute>,
    /// The names of its variants, in declaration order; empty for a record
    /// or a union.
    pub variants: Vec<String>,
}

/// What a [`Declaration`] stands for in contracts.
pub struct DeclarationView {
    pub name: Seq<char>,
    pub kind: DeclKind,
    pub attributes: Seq<AttributeView>,
    pub variants: Seq<Seq<char>>,
}

impl View for Declaration {
    type V = DeclarationView;

    open spec fn view(&self) -> DeclarationView {
        DeclarationView {
            name: self.name@,
            kind: self.kind,
            attributes: attribute_views(self.attributes@),
            variants: text_views(self.variants@),
        }
    }
}

impl Clone for Declaration {
    fn clone(&self) -> (r: Self)
        ensures
            r@ == self@,
    {
        let r = Declaration {
            name: self.name.clone(),
            kind: self.kind,
            attributes: self.attributes.clone(),
            variants: self.variants.clone(),
        };
        proof {
            assert(r@.attributes =~= self@.attributes);
            assert(r@.variants =~= self@.variants);
        }
        r
    }
}

} // verus!
