//! Source coordinates: spans of byte offsets, source keys and locations.

use vstd::prelude::*;

verus! {

/// A half-open range `start..end` of byte offsets into a source text.
#[derive(Clone, Copy, Debug, PartialEq, Eq, Hash, Structural)]
pub struct Span {
    pub start: u32,
    pub end: u32,
}

impl Span {
    pub fn new(start: u32, end: u32) -> (span: Span)
        ensures
            span == (Span { start, end }),
    {
        Span { start, end }
    }

    /// The span 0..0.
    pub fn empty() -> (span: Span)
        ensures
            span == (Span { start: 0, end: 0 }),
    {
        Span { start: 0, end: 0 }
    }

    /// `other` lies within `self`, bounds included.
    pub open spec fn spec_contains(self, other: Span) -> bool {
        self.start <= other.start && other.end <= self.end
    }

    #[verifier::when_used_as_spec(spec_contains)]
    pub fn contains(self, other: Span) -> (inside: bool)
        ensures
            inside == self.spec_contains(other),
    {
        self.start <= other.start && other.end <= self.end
    }

    /// Spans are ordered by start, then by end.
    pub open spec fn spec_le(self, other: Span) -> bool {
        self.start < other.start || (self.start == other.start && self.end <= other.end)
    }

    pub fn le(self, other: Span) -> (before: bool)
        ensures
            before == self.spec_le(other),
    {
        self.start < other.start || (self.start == other.start && self.end <= other.end)
    }
}

/// Identifies the text that a span points into. Paths are carried as
/// numeric keys handed out by the caller.
#[derive(Clone, Copy, Debug, PartialEq, Eq, Hash, Structural)]
pub enum SourceLocationKey {
    /// The `index`-th embedded source of the file `path`.
    Embedded { path: u32, index: u16 },
    /// A file that is a source as a whole.
    Standalone { path: u32 },
    /// Text that no file holds.
    Generated,
}

impl SourceLocationKey {
    pub fn embedded(path: u32, index: u16) -> (key: SourceLocationKey)
        ensures
            key == (SourceLocationKey::Embedded { path, index }),
    {
        SourceLocationKey::Embedded { path, index }
    }

    pub fn standalone(path: u32) -> (key: SourceLocationKey)
        ensures
            key == (SourceLocationKey::Standalone { path }),
    {
        SourceLocationKey::Standalone { path }
    }

    pub fn generated() -> (key: SourceLocationKey)
        ensures
            key == SourceLocationKey::Generated,
    {
        SourceLocationKey::Generated
    }

    pub fn is_generated(self) -> (generated: bool)
        ensures
            generated == (self == SourceLocationKey::Generated),
    {
        match self {
            SourceLocationKey::Generated => true,
            _ => false,
        }
    }

    /// The position of a key in the order of keys: embedded sources first,
    /// then standalone files, then generated text; within a kind by path and
    /// index.
    pub open spec fn rank(self) -> (int, int, int) {
        match self {
            SourceLocationKey::Embedded { path, index } => (0, path as int, index as int),
            SourceLocationKey::Standalone { path } => (1, path as int, 0),
            SourceLocationKey::Generated => (2, 0, 0),
        }
    }

    pub open spec fn spec_le(self, other: SourceLocationKey) -> bool {
        let a = self.rank();
        let b = other.rank();
        a.0 < b.0 || (a.0 == b.0 && (a.1 < b.1 || (a.1 == b.1 && a.2 <= b.2)))
    }

    fn rank_parts(self) -> (parts: (u8, u32, u16))
        ensures
            parts.0 as int == self.rank().0,
            parts.1 as int == self.rank().1,
            parts.2 as int == self.rank().2,
    {
        match self {
            SourceLocationKey::Embedded { path, index } => (0, path, index),
            SourceLocationKey::Standalone { path } => (1, path, 0),
            SourceLocationKey::Generated => (2, 0, 0),
        }
    }

    pub fn le(self, other: SourceLocationKey) -> (before: bool)
        ensures
            before == self.spec_le(other),
    {
        let a = self.rank_parts();
        let b = other.rank_parts();
        a.0 < b.0 || (a.0 == b.0 && (a.1 < b.1 || (a.1 == b.1 && a.2 <= b.2)))
    }
}

/// A span within an identified source.
#[derive(Clone, Copy, Debug, PartialEq, Eq, Hash, Structural)]
pub struct Location {
    pub source_location: SourceLocationKey,
    pub span: Span,
}

impl Location {
    pub fn new(source_location: SourceLocationKey, span: Span) -> (location: Location)
        ensures
            location == (Location { source_location, span }),
    {
        Location { source_location, span }
    }

    /// The empty span of generated text.
    pub fn generated() -> (location: Location)
        ensures
            location == (Location {
                source_location: SourceLocationKey::Generated,
                span: Span { start: 0, end: 0 },
            }),
    {
        Location { source_location: SourceLocationKey::Generated, span: Span { start: 0, end: 0 } }
    }

    pub fn source_location(&self) -> (key: SourceLocationKey)
        ensures
            key == self.source_location,
    {
        self.source_location
    }

    pub fn span(&self) -> (span: Span)
        ensures
            span == self.span,
    {
        self.span
    }

    /// The same source with another span.
    pub fn with_span(&self, span: Span) -> (location: Location)
        ensures
            location == (Location { source_location: self.source_location, span }),
    {
        Location { source_location: self.source_location, span }
    }

    pub open spec fn spec_contains(&self, position: Span) -> bool {
        self.span.spec_contains(position)
    }

    /// The cursor span `position` lies within this location's span.
    #[verifier::when_used_as_spec(spec_contains)]
    pub fn contains(&self, position: Span) -> (inside: bool)
        ensures
            inside == self.spec_contains(position),
    {
        self.span.contains(position)
    }

    /// Locations are ordered by source key, then by span.
    pub open spec fn spec_le(self, other: Location) -> bool {
        if self.source_location == other.source_location {
            self.span.spec_le(other.span)
        } else {
            self.source_location.spec_le(other.source_location)
        }
    }

    pub fn le(&self, other: &Location) -> (before: bool)
        ensures
            before == self.spec_le(*other),
    {
        if self.source_location == other.source_location {
            self.span.le(other.span)
        } else {
            self.source_location.le(other.source_location)
        }
    }
}

/// The order of locations is total: of two locations one precedes the other.
pub proof fn law_location_order_is_total(a: Location, b: Location)
    ensures
        a.spec_le(b) || b.spec_le(a),
{
}

/// The order of locations is transitive.
pub proof fn law_location_order_is_transitive(a: Location, b: Location, c: Location)
    requires
        a.spec_le(b),
        b.spec_le(c),
    ensures
        a.spec_le(c),
{
}

/// Two locations that precede each other are the same location.
pub proof fn law_location_order_is_antisymmetric(a: Location, b: Location)
    requires
        a.spec_le(b),
        b.spec_le(a),
    ensures
        a == b,
{
}

/// A string together with the place it was written at.
#[derive(Clone, Debug, PartialEq, Eq)]
pub struct LocatedString {
    pub location: Location,
    pub item: String,
}

impl LocatedString {
    pub fn new(location: Location, item: String) -> (located: LocatedString)
        ensures
            located == (LocatedString { location, item }),
    {
        LocatedString { location, item }
    }

    /// A string that stands at no place in any file.
    pub fn generated(item: String) -> (located: LocatedString)
        ensures
            located.item == item,
            located.location == (Location {
                source_location: SourceLocationKey::Generated,
                span: Span { start: 0, end: 0 },
            }),
    {
        LocatedString { location: Location::generated(), item }
    }

    /// A copy that is equal to the original.
    pub fn duplicate(&self) -> (copy: LocatedString)
        ensures
            copy == *self,
    {
        LocatedString { location: self.location, item: self.item.clone() }
    }
}

} // verus!
