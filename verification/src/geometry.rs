use vstd::prelude::*;

verus! {

// ============================================================================
// Data model
//
// A geometry text is parsed into a `Geometry` (the structured form of the
// text) and then converted into a `Feature` (the interchange form a map
// client renders: a kind tag plus nested coordinate arrays). Coordinate
// values are kept as the exact numeric tokens of the text, so no precision
// is lost between the store and the response.
// ============================================================================

/// One vertex: the two numeric tokens exactly as they stood in the text.
#[derive(Debug)]
pub struct Coord {
    pub x: String,
    pub y: String,
}

impl DeepView for Coord {
    type V = (Seq<char>, Seq<char>);

    open spec fn deep_view(&self) -> Self::V {
        (self.x@, self.y@)
    }
}

/// The structured geometry read out of a well-known-text string.
#[derive(Debug)]
pub enum Geometry {
    Point(Coord),
    LineString(Vec<Coord>),
    Polygon(Vec<Vec<Coord>>),
    MultiPoint(Vec<Coord>),
    MultiLineString(Vec<Vec<Coord>>),
    MultiPolygon(Vec<Vec<Vec<Coord>>>),
}

/// The mathematical model of a `Geometry`: the same shape over sequences.
pub enum GeometryModel {
    Point((Seq<char>, Seq<char>)),
    LineString(Seq<(Seq<char>, Seq<char>)>),
    Polygon(Seq<Seq<(Seq<char>, Seq<char>)>>),
    MultiPoint(Seq<(Seq<char>, Seq<char>)>),
    MultiLineString(Seq<Seq<(Seq<char>, Seq<char>)>>),
    MultiPolygon(Seq<Seq<Seq<(Seq<char>, Seq<char>)>>>),
}

impl DeepView for Geometry {
    type V = GeometryModel;

    open spec fn deep_view(&self) -> GeometryModel {
        match self {
            Geometry::Point(c) => GeometryModel::Point(c.deep_view()),
            Geometry::LineString(cs) => GeometryModel::LineString(cs.deep_view()),
            Geometry::Polygon(rs) => GeometryModel::Polygon(rs.deep_view()),
            Geometry::MultiPoint(cs) => GeometryModel::MultiPoint(cs.deep_view()),
            Geometry::MultiLineString(rs) => GeometryModel::MultiLineString(rs.deep_view()),
            Geometry::MultiPolygon(ps) => GeometryModel::MultiPolygon(ps.deep_view()),
        }
    }
}

/// The kind tag of the interchange form.
#[derive(Clone, Copy, PartialEq, Eq, Structural, Debug)]
pub enum GeometryKind {
    Point,
    LineString,
    Polygon,
    MultiPoint,
    MultiLineString,
    MultiPolygon,
}

/// Coordinate data of the interchange form, at its four nesting depths.
#[derive(Debug)]
pub enum Coordinates {
    One(Coord),
    Many(Vec<Coord>),
    Nested(Vec<Vec<Coord>>),
    DoublyNested(Vec<Vec<Vec<Coord>>>),
}

/// The mathematical model of `Coordinates`.
pub enum CoordinatesModel {
    One((Seq<char>, Seq<char>)),
    Many(Seq<(Seq<char>, Seq<char>)>),
    Nested(Seq<Seq<(Seq<char>, Seq<char>)>>),
    DoublyNested(Seq<Seq<Seq<(Seq<char>, Seq<char>)>>>),
}

impl DeepView for Coordinates {
    type V = CoordinatesModel;

    open spec fn deep_view(&self) -> CoordinatesModel {
        match self {
            Coordinates::One(c) => CoordinatesModel::One(c.deep_view()),
            Coordinates::Many(cs) => CoordinatesModel::Many(cs.deep_view()),
            Coordinates::Nested(rs) => CoordinatesModel::Nested(rs.deep_view()),
            Coordinates::DoublyNested(ps) => CoordinatesModel::DoublyNested(ps.deep_view()),
        }
    }
}

/// The map-renderable interchange form: a kind tag plus coordinate data.
#[derive(Debug)]
pub struct Feature {
    pub kind: GeometryKind,
    pub coordinates: Coordinates,
}

/// The mathematical model of a `Feature`.
pub struct FeatureModel {
    pub kind: GeometryKind,
    pub coordinates: CoordinatesModel,
}

impl DeepView for Feature {
    type V = FeatureModel;

    open spec fn deep_view(&self) -> FeatureModel {
        FeatureModel { kind: self.kind, coordinates: self.coordinates.deep_view() }
    }
}

// ============================================================================
// Structural measures: the kind and the vertex count of a geometry, and of
// the feature it converts to.
// ============================================================================

pub open spec fn count_nested(s: Seq<Seq<(Seq<char>, Seq<char>)>>) -> nat
    decreases s.len(),
{
    if s.len() == 0 {
        0
    } else {
        s[0].len() + count_nested(s.drop_first())
    }
}

pub open spec fn count_doubly_nested(s: Seq<Seq<Seq<(Seq<char>, Seq<char>)>>>) -> nat
    decreases s.len(),
{
    if s.len() == 0 {
        0
    } else {
        count_nested(s[0]) + count_doubly_nested(s.drop_first())
    }
}

pub open spec fn geometry_kind(g: GeometryModel) -> GeometryKind {
    match g {
        GeometryModel::Point(_) => GeometryKind::Point,
        GeometryModel::LineString(_) => GeometryKind::LineString,
        GeometryModel::Polygon(_) => GeometryKind::Polygon,
        GeometryModel::MultiPoint(_) => GeometryKind::MultiPoint,
        GeometryModel::MultiLineString(_) => GeometryKind::MultiLineString,
        GeometryModel::MultiPolygon(_) => GeometryKind::MultiPolygon,
    }
}

pub open spec fn geometry_vertex_count(g: GeometryModel) -> nat {
    match g {
        GeometryModel::Point(_) => 1,
        GeometryModel::LineString(cs) => cs.len(),
        GeometryModel::Polygon(rs) => count_nested(rs),
        GeometryModel::MultiPoint(cs) => cs.len(),
        GeometryModel::MultiLineString(rs) => count_nested(rs),
        GeometryModel::MultiPolygon(ps) => count_doubly_nested(ps),
    }
}

pub open spec fn feature_vertex_count(f: FeatureModel) -> nat {
    match f.coordinates {
        CoordinatesModel::One(_) => 1,
        CoordinatesModel::Many(cs) => cs.len(),
        CoordinatesModel::Nested(rs) => count_nested(rs),
        CoordinatesModel::DoublyNested(ps) => count_doubly_nested(ps),
    }
}

/// What the interchange form of a structured geometry is.
pub open spec fn feature_model_of(g: GeometryModel) -> FeatureModel {
    match g {
        GeometryModel::Point(c) => FeatureModel {
            kind: GeometryKind::Point,
            coordinates: CoordinatesModel::One(c),
        },
        GeometryModel::LineString(cs) => FeatureModel {
            kind: GeometryKind::LineString,
            coordinates: CoordinatesModel::Many(cs),
        },
        GeometryModel::Polygon(rs) => FeatureModel {
            kind: GeometryKind::Polygon,
            coordinates: CoordinatesModel::Nested(rs),
        },
        GeometryModel::MultiPoint(cs) => FeatureModel {
            kind: GeometryKind::MultiPoint,
            coordinates: CoordinatesModel::Many(cs),
        },
        GeometryModel::MultiLineString(rs) => FeatureModel {
            kind: GeometryKind::MultiLineString,
            coordinates: CoordinatesModel::Nested(rs),
        },
        GeometryModel::MultiPolygon(ps) => FeatureModel {
            kind: GeometryKind::MultiPolygon,
            coordinates: CoordinatesModel::DoublyNested(ps),
        },
    }
}

// ============================================================================
// The text format, as a deterministic grammar over sequences of characters.
//
// text      := ws* KEYWORD ws* body ws*
// body      := point body | list body | nested body | doubly nested body
// coord     := number ws+ number
// number    := ('-' | '+')? digit+ ('.' digit+)? (('e' | 'E') ('-' | '+')? digit+)?
// a list    := '(' ws* item (ws* ',' ws* item)* ws* ')'
//
// Each spec function takes the character position it starts at and returns
// what it read together with the position just past it, or `None` where the
// text does not fit the production.
// ============================================================================

pub open spec fn is_ws_char(c: char) -> bool {
    c == ' ' || c == '\t' || c == '\n' || c == '\r'
}

pub open spec fn is_digit_char(c: char) -> bool {
    '0' <= c && c <= '9'
}

/// The first position at or after `i` that does not hold whitespace.
pub open spec fn skip_ws(s: Seq<char>, i: int) -> int
    decreases s.len() - i,
{
    if 0 <= i && i < s.len() && is_ws_char(s[i]) {
        skip_ws(s, i + 1)
    } else {
        i
    }
}

/// The first position at or after `i` that does not hold a digit.
pub open spec fn scan_digits(s: Seq<char>, i: int) -> int
    decreases s.len() - i,
{
    if 0 <= i && i < s.len() && is_digit_char(s[i]) {
        scan_digits(s, i + 1)
    } else {
        i
    }
}

/// Where the fraction part ending a token's integer digits at `k` ends:
/// past the point and its digits where one stands there, and at `k` where
/// none does.
pub open spec fn fraction_end(s: Seq<char>, k: int) -> Option<int> {
    if k < s.len() && s[k] == '.' {
        let m = scan_digits(s, k + 1);
        if m == k + 1 {
            None
        } else {
            Some(m)
        }
    } else {
        Some(k)
    }
}

/// Where the exponent part starting at `k` ends: past the marker, an
/// optional sign and the digits where one stands there, and at `k` where
/// none does.
pub open spec fn exponent_end(s: Seq<char>, k: int) -> Option<int> {
    if k < s.len() && (s[k] == 'e' || s[k] == 'E') {
        let j = if k + 1 < s.len() && (s[k + 1] == '-' || s[k + 1] == '+') {
            k + 2
        } else {
            k + 1
        };
        let m = scan_digits(s, j);
        if m == j {
            None
        } else {
            Some(m)
        }
    } else {
        Some(k)
    }
}

/// Where a numeric token starting at `i` ends, if one starts there.
pub open spec fn number_end(s: Seq<char>, i: int) -> Option<int> {
    let j = if i < s.len() && (s[i] == '-' || s[i] == '+') {
        i + 1
    } else {
        i
    };
    let k = scan_digits(s, j);
    if k == j {
        None
    } else {
        match fraction_end(s, k) {
            Option::None => Option::None,
            Option::Some(f) => exponent_end(s, f),
        }
    }
}

/// A coordinate: two numeric tokens parted by whitespace.
pub open spec fn parse_coord(s: Seq<char>, i: int) -> Option<((Seq<char>, Seq<char>), int)> {
    match number_end(s, i) {
        Option::None => Option::None,
        Option::Some(e1) => {
            let j = skip_ws(s, e1);
            if j <= e1 {
                Option::None
            } else {
                match number_end(s, j) {
                    Option::None => Option::None,
                    Option::Some(e2) => Option::Some(
                        ((s.subrange(i, e1), s.subrange(j, e2)), e2),
                    ),
                }
            }
        },
    }
}

/// A comma-parted list of coordinates.
pub open spec fn parse_coord_list(s: Seq<char>, i: int) -> Option<
    (Seq<(Seq<char>, Seq<char>)>, int),
>
    decreases s.len() - i,
{
    match parse_coord(s, i) {
        Option::None => Option::None,
        Option::Some((c, j)) => {
            if j <= i {
                Option::None
            } else {
                let k = skip_ws(s, j);
                if k < j {
                    Option::None
                } else if k < s.len() && s[k] == ',' {
                    let m = skip_ws(s, k + 1);
                    if m < k + 1 || s.len() < m {
                        Option::None
                    } else {
                        match parse_coord_list(s, m) {
                            Option::None => Option::None,
                            Option::Some((rest, e)) => Option::Some((seq![c] + rest, e)),
                        }
                    }
                } else {
                    Option::Some((seq![c], j))
                }
            }
        },
    }
}

/// A parenthesized list of coordinates (a line or one ring of a polygon).
pub open spec fn parse_ring(s: Seq<char>, i: int) -> Option<(Seq<(Seq<char>, Seq<char>)>, int)> {
    if 0 <= i && i < s.len() && s[i] == '(' {
        let j = skip_ws(s, i + 1);
        if j < i + 1 {
            Option::None
        } else {
            match parse_coord_list(s, j) {
                Option::None => Option::None,
                Option::Some((cs, k)) => {
                    if k < j {
                        Option::None
                    } else {
                        let m = skip_ws(s, k);
                        if m < k {
                            Option::None
                        } else if m < s.len() && s[m] == ')' {
                            Option::Some((cs, m + 1))
                        } else {
                            Option::None
                        }
                    }
                },
            }
        }
    } else {
        Option::None
    }
}

/// A comma-parted list of rings.
pub open spec fn parse_ring_list(s: Seq<char>, i: int) -> Option<
    (Seq<Seq<(Seq<char>, Seq<char>)>>, int),
>
    decreases s.len() - i,
{
    match parse_ring(s, i) {
        Option::None => Option::None,
        Option::Some((r, j)) => {
            if j <= i {
                Option::None
            } else {
                let k = skip_ws(s, j);
                if k < j {
                    Option::None
                } else if k < s.len() && s[k] == ',' {
                    let m = skip_ws(s, k + 1);
                    if m < k + 1 || s.len() < m {
                        Option::None
                    } else {
                        match parse_ring_list(s, m) {
                            Option::None => Option::None,
                            Option::Some((rest, e)) => Option::Some((seq![r] + rest, e)),
                        }
                    }
                } else {
                    Option::Some((seq![r], j))
                }
            }
        },
    }
}

/// A parenthesized list of rings (a polygon or one part of a multi-line).
pub open spec fn parse_rings(s: Seq<char>, i: int) -> Option<
    (Seq<Seq<(Seq<char>, Seq<char>)>>, int),
> {
    if 0 <= i && i < s.len() && s[i] == '(' {
        let j = skip_ws(s, i + 1);
        if j < i + 1 {
            Option::None
        } else {
            match parse_ring_list(s, j) {
                Option::None => Option::None,
                Option::Some((rs, k)) => {
                    if k < j {
                        Option::None
                    } else {
                        let m = skip_ws(s, k);
                        if m < k {
                            Option::None
                        } else if m < s.len() && s[m] == ')' {
                            Option::Some((rs, m + 1))
                        } else {
                            Option::None
                        }
                    }
                },
            }
        }
    } else {
        Option::None
    }
}

/// A comma-parted list of polygons.
pub open spec fn parse_rings_list(s: Seq<char>, i: int) -> Option<
    (Seq<Seq<Seq<(Seq<char>, Seq<char>)>>>, int),
>
    decreases s.len() - i,
{
    match parse_rings(s, i) {
        Option::None => Option::None,
        Option::Some((p, j)) => {
            if j <= i {
                Option::None
            } else {
                let k = skip_ws(s, j);
                if k < j {
                    Option::None
                } else if k < s.len() && s[k] == ',' {
                    let m = skip_ws(s, k + 1);
                    if m < k + 1 || s.len() < m {
                        Option::None
                    } else {
                        match parse_rings_list(s, m) {
                            Option::None => Option::None,
                            Option::Some((rest, e)) => Option::Some((seq![p] + rest, e)),
                        }
                    }
                } else {
                    Option::Some((seq![p], j))
                }
            }
        },
    }
}

/// A parenthesized list of polygons (the body of a multi-polygon).
pub open spec fn parse_polys(s: Seq<char>, i: int) -> Option<
    (Seq<Seq<Seq<(Seq<char>, Seq<char>)>>>, int),
> {
    if 0 <= i && i < s.len() && s[i] == '(' {
        let j = skip_ws(s, i + 1);
        if j < i + 1 {
            Option::None
        } else {
            match parse_rings_list(s, j) {
                Option::None => Option::None,
                Option::Some((ps, k)) => {
                    if k < j {
                        Option::None
                    } else {
                        let m = skip_ws(s, k);
                        if m < k {
                            Option::None
                        } else if m < s.len() && s[m] == ')' {
                            Option::Some((ps, m + 1))
                        } else {
                            Option::None
                        }
                    }
                },
            }
        }
    } else {
        Option::None
    }
}

/// A parenthesized single coordinate (the body of a point).
pub open spec fn parse_point_body(s: Seq<char>, i: int) -> Option<((Seq<char>, Seq<char>), int)> {
    if 0 <= i && i < s.len() && s[i] == '(' {
        let j = skip_ws(s, i + 1);
        if j < i + 1 {
            Option::None
        } else {
            match parse_coord(s, j) {
                Option::None => Option::None,
                Option::Some((c, k)) => {
                    if k < j {
                        Option::None
                    } else {
                        let m = skip_ws(s, k);
                        if m < k {
                            Option::None
                        } else if m < s.len() && s[m] == ')' {
                            Option::Some((c, m + 1))
                        } else {
                            Option::None
                        }
                    }
                },
            }
        }
    } else {
        Option::None
    }
}

/// Whether one character matches a keyword's upper-case letter, in either
/// case.
pub open spec fn keyword_char(c: char, upper: char) -> bool {
    c == upper || c as int == upper as int + 32
}

/// Whether the characters of the upper-case keyword `kw` stand at position
/// `i` of `s`, each in either case.
pub open spec fn keyword_at(s: Seq<char>, i: int, kw: Seq<char>) -> bool {
    &&& 0 <= i
    &&& i + kw.len() <= s.len()
    &&& forall|u: int| 0 <= u < kw.len() ==> keyword_char(s[i + u], kw[u])
}

/// Whether only whitespace stands from position `e` to the end of `s`.
pub open spec fn only_ws_to_end(s: Seq<char>, e: int) -> bool {
    skip_ws(s, e) == s.len()
}

/// The geometry a well-known-text string denotes, or `None` where the
/// string does not fit the format. Keywords are upper case; a collection
/// keyword or anything else outside the grammar is not a supported subtype.
pub open spec fn wkt_model(s: Seq<char>) -> Option<GeometryModel> {
    let i = skip_ws(s, 0);
    if keyword_at(s, i, "MULTIPOLYGON"@) {
        match parse_polys(s, skip_ws(s, i + 12)) {
            Option::None => Option::None,
            Option::Some((ps, e)) => if only_ws_to_end(s, e) {
                Option::Some(GeometryModel::MultiPolygon(ps))
            } else {
                Option::None
            },
        }
    } else if keyword_at(s, i, "MULTILINESTRING"@) {
        match parse_rings(s, skip_ws(s, i + 15)) {
            Option::None => Option::None,
            Option::Some((rs, e)) => if only_ws_to_end(s, e) {
                Option::Some(GeometryModel::MultiLineString(rs))
            } else {
                Option::None
            },
        }
    } else if keyword_at(s, i, "MULTIPOINT"@) {
        match parse_ring(s, skip_ws(s, i + 10)) {
            Option::None => Option::None,
            Option::Some((cs, e)) => if only_ws_to_end(s, e) {
                Option::Some(GeometryModel::MultiPoint(cs))
            } else {
                Option::None
            },
        }
    } else if keyword_at(s, i, "LINESTRING"@) {
        match parse_ring(s, skip_ws(s, i + 10)) {
            Option::None => Option::None,
            Option::Some((cs, e)) => if only_ws_to_end(s, e) {
                Option::Some(GeometryModel::LineString(cs))
            } else {
                Option::None
            },
        }
    } else if keyword_at(s, i, "POLYGON"@) {
        match parse_rings(s, skip_ws(s, i + 7)) {
            Option::None => Option::None,
            Option::Some((rs, e)) => if only_ws_to_end(s, e) {
                Option::Some(GeometryModel::Polygon(rs))
            } else {
                Option::None
            },
        }
    } else if keyword_at(s, i, "POINT"@) {
        match parse_point_body(s, skip_ws(s, i + 5)) {
            Option::None => Option::None,
            Option::Some((c, e)) => if only_ws_to_end(s, e) {
                Option::Some(GeometryModel::Point(c))
            } else {
                Option::None
            },
        }
    } else {
        Option::None
    }
}

// ============================================================================
// The executable parser. Each function mirrors one production of the grammar
// and is proved to return exactly what the grammar denotes.
// ============================================================================

fn skip_ws_exec(s: &str, i: usize) -> (r: usize)
    requires
        i <= s@.len(),
    ensures
        r as int == skip_ws(s@, i as int),
        i <= r <= s@.len(),
    decreases s@.len() - i,
{
    let n = s.unicode_len();
    if i < n {
        let c = s.get_char(i);
        if c == ' ' || c == '\t' || c == '\n' || c == '\r' {
            skip_ws_exec(s, i + 1)
        } else {
            i
        }
    } else {
        i
    }
}

fn scan_digits_exec(s: &str, i: usize) -> (r: usize)
    requires
        i <= s@.len(),
    ensures
        r as int == scan_digits(s@, i as int),
        i <= r <= s@.len(),
    decreases s@.len() - i,
{
    let n = s.unicode_len();
    if i < n {
        let c = s.get_char(i);
        if '0' <= c && c <= '9' {
            scan_digits_exec(s, i + 1)
        } else {
            i
        }
    } else {
        i
    }
}

fn number_end_exec(s: &str, i: usize) -> (r: Option<usize>)
    requires
        i <= s@.len(),
    ensures
        r is Some <==> number_end(s@, i as int) is Some,
        r is Some ==> r->Some_0 as int == number_end(s@, i as int)->Some_0,
        r is Some ==> i <= r->Some_0 <= s@.len(),
{
    let n = s.unicode_len();
    let j: usize = if i < n && (s.get_char(i) == '-' || s.get_char(i) == '+') {
        i + 1
    } else {
        i
    };
    let k = scan_digits_exec(s, j);
    if k == j {
        return Option::None;
    }
    let f: usize = if k < n && s.get_char(k) == '.' {
        let m = scan_digits_exec(s, k + 1);
        if m == k + 1 {
            return Option::None;
        }
        m
    } else {
        k
    };
    if f < n && (s.get_char(f) == 'e' || s.get_char(f) == 'E') {
        let j2: usize = if f + 1 < n && (s.get_char(f + 1) == '-' || s.get_char(f + 1) == '+') {
            f + 2
        } else {
            f + 1
        };
        let m = scan_digits_exec(s, j2);
        if m == j2 {
            Option::None
        } else {
            Option::Some(m)
        }
    } else {
        Option::Some(f)
    }
}

fn parse_coord_exec(s: &str, i: usize) -> (r: Option<(Coord, usize)>)
    requires
        i <= s@.len(),
    ensures
        r is Some <==> parse_coord(s@, i as int) is Some,
        r is Some ==> r->Some_0.0.deep_view() == parse_coord(s@, i as int)->Some_0.0,
        r is Some ==> r->Some_0.1 as int == parse_coord(s@, i as int)->Some_0.1,
        r is Some ==> i <= r->Some_0.1 <= s@.len(),
{
    match number_end_exec(s, i) {
        Option::None => Option::None,
        Option::Some(e1) => {
            let j = skip_ws_exec(s, e1);
            if j <= e1 {
                Option::None
            } else {
                match number_end_exec(s, j) {
                    Option::None => Option::None,
                    Option::Some(e2) => {
                        let x = s.substring_char(i, e1).to_owned();
                        let y = s.substring_char(j, e2).to_owned();
                        Option::Some((Coord { x: x, y: y }, e2))
                    },
                }
            }
        },
    }
}

fn parse_coord_list_exec(s: &str, i: usize) -> (r: Option<(Vec<Coord>, usize)>)
    requires
        i <= s@.len(),
    ensures
        r is Some <==> parse_coord_list(s@, i as int) is Some,
        r is Some ==> r->Some_0.0.deep_view() == parse_coord_list(s@, i as int)->Some_0.0,
        r is Some ==> r->Some_0.1 as int == parse_coord_list(s@, i as int)->Some_0.1,
        r is Some ==> i <= r->Some_0.1 <= s@.len(),
    decreases s@.len() - i,
{
    let n = s.unicode_len();
    match parse_coord_exec(s, i) {
        Option::None => Option::None,
        Option::Some((c, j)) => {
            if j <= i {
                Option::None
            } else {
                let k = skip_ws_exec(s, j);
                if k < n && s.get_char(k) == ',' {
                    let m = skip_ws_exec(s, k + 1);
                    match parse_coord_list_exec(s, m) {
                        Option::None => Option::None,
                        Option::Some((mut rest, e)) => {
                            let ghost rest0 = rest.deep_view();
                            rest.insert(0, c);
                            proof {
                                assert(rest.deep_view() =~= seq![c.deep_view()] + rest0);
                            }
                            Option::Some((rest, e))
                        },
                    }
                } else {
                    let mut v: Vec<Coord> = Vec::new();
                    v.push(c);
                    proof {
                        assert(v.deep_view() =~= seq![c.deep_view()]);
                    }
                    Option::Some((v, j))
                }
            }
        },
    }
}

fn parse_ring_exec(s: &str, i: usize) -> (r: Option<(Vec<Coord>, usize)>)
    requires
        i <= s@.len(),
    ensures
        r is Some <==> parse_ring(s@, i as int) is Some,
        r is Some ==> r->Some_0.0.deep_view() == parse_ring(s@, i as int)->Some_0.0,
        r is Some ==> r->Some_0.1 as int == parse_ring(s@, i as int)->Some_0.1,
        r is Some ==> i <= r->Some_0.1 <= s@.len(),
{
    let n = s.unicode_len();
    if i < n && s.get_char(i) == '(' {
        let j = skip_ws_exec(s, i + 1);
        match parse_coord_list_exec(s, j) {
            Option::None => Option::None,
            Option::Some((cs, k)) => {
                let m = skip_ws_exec(s, k);
                if m < n && s.get_char(m) == ')' {
                    Option::Some((cs, m + 1))
                } else {
                    Option::None
                }
            },
        }
    } else {
        Option::None
    }
}

fn parse_ring_list_exec(s: &str, i: usize) -> (r: Option<(Vec<Vec<Coord>>, usize)>)
    requires
        i <= s@.len(),
    ensures
        r is Some <==> parse_ring_list(s@, i as int) is Some,
        r is Some ==> r->Some_0.0.deep_view() == parse_ring_list(s@, i as int)->Some_0.0,
        r is Some ==> r->Some_0.1 as int == parse_ring_list(s@, i as int)->Some_0.1,
        r is Some ==> i <= r->Some_0.1 <= s@.len(),
    decreases s@.len() - i,
{
    let n = s.unicode_len();
    match parse_ring_exec(s, i) {
        Option::None => Option::None,
        Option::Some((ring, j)) => {
            if j <= i {
                Option::None
            } else {
                let k = skip_ws_exec(s, j);
                if k < n && s.get_char(k) == ',' {
                    let m = skip_ws_exec(s, k + 1);
                    match parse_ring_list_exec(s, m) {
                        Option::None => Option::None,
                        Option::Some((mut rest, e)) => {
                            let ghost rest0 = rest.deep_view();
                            rest.insert(0, ring);
                            proof {
                                assert(rest.deep_view() =~= seq![rest@[0].deep_view()] + rest0);
                            }
                            Option::Some((rest, e))
                        },
                    }
                } else {
                    let mut v: Vec<Vec<Coord>> = Vec::new();
                    v.push(ring);
                    proof {
                        assert(v.deep_view() =~= seq![v@[0].deep_view()]);
                    }
                    Option::Some((v, j))
                }
            }
        },
    }
}

fn parse_rings_exec(s: &str, i: usize) -> (r: Option<(Vec<Vec<Coord>>, usize)>)
    requires
        i <= s@.len(),
    ensures
        r is Some <==> parse_rings(s@, i as int) is Some,
        r is Some ==> r->Some_0.0.deep_view() == parse_rings(s@, i as int)->Some_0.0,
        r is Some ==> r->Some_0.1 as int == parse_rings(s@, i as int)->Some_0.1,
        r is Some ==> i <= r->Some_0.1 <= s@.len(),
{
    let n = s.unicode_len();
    if i < n && s.get_char(i) == '(' {
        let j = skip_ws_exec(s, i + 1);
        match parse_ring_list_exec(s, j) {
            Option::None => Option::None,
            Option::Some((rs, k)) => {
                let m = skip_ws_exec(s, k);
                if m < n && s.get_char(m) == ')' {
                    Option::Some((rs, m + 1))
                } else {
                    Option::None
                }
            },
        }
    } else {
        Option::None
    }
}

fn parse_rings_list_exec(s: &str, i: usize) -> (r: Option<(Vec<Vec<Vec<Coord>>>, usize)>)
    requires
        i <= s@.len(),
    ensures
        r is Some <==> parse_rings_list(s@, i as int) is Some,
        r is Some ==> r->Some_0.0.deep_view() == parse_rings_list(s@, i as int)->Some_0.0,
        r is Some ==> r->Some_0.1 as int == parse_rings_list(s@, i as int)->Some_0.1,
        r is Some ==> i <= r->Some_0.1 <= s@.len(),
    decreases s@.len() - i,
{
    let n = s.unicode_len();
    match parse_rings_exec(s, i) {
        Option::None => Option::None,
        Option::Some((poly, j)) => {
            if j <= i {
                Option::None
            } else {
                let k = skip_ws_exec(s, j);
                if k < n && s.get_char(k) == ',' {
                    let m = skip_ws_exec(s, k + 1);
                    match parse_rings_list_exec(s, m) {
                        Option::None => Option::None,
                        Option::Some((mut rest, e)) => {
                            let ghost rest0 = rest.deep_view();
                            rest.insert(0, poly);
                            proof {
                                assert(rest.deep_view() =~= seq![rest@[0].deep_view()] + rest0);
                            }
                            Option::Some((rest, e))
                        },
                    }
                } else {
                    let mut v: Vec<Vec<Vec<Coord>>> = Vec::new();
                    v.push(poly);
                    proof {
                        assert(v.deep_view() =~= seq![v@[0].deep_view()]);
                    }
                    Option::Some((v, j))
                }
            }
        },
    }
}

fn parse_polys_exec(s: &str, i: usize) -> (r: Option<(Vec<Vec<Vec<Coord>>>, usize)>)
    requires
        i <= s@.len(),
    ensures
        r is Some <==> parse_polys(s@, i as int) is Some,
        r is Some ==> r->Some_0.0.deep_view() == parse_polys(s@, i as int)->Some_0.0,
        r is Some ==> r->Some_0.1 as int == parse_polys(s@, i as int)->Some_0.1,
        r is Some ==> i <= r->Some_0.1 <= s@.len(),
{
    let n = s.unicode_len();
    if i < n && s.get_char(i) == '(' {
        let j = skip_ws_exec(s, i + 1);
        match parse_rings_list_exec(s, j) {
            Option::None => Option::None,
            Option::Some((ps, k)) => {
                let m = skip_ws_exec(s, k);
                if m < n && s.get_char(m) == ')' {
                    Option::Some((ps, m + 1))
                } else {
                    Option::None
                }
            },
        }
    } else {
        Option::None
    }
}

fn parse_point_body_exec(s: &str, i: usize) -> (r: Option<(Coord, usize)>)
    requires
        i <= s@.len(),
    ensures
        r is Some <==> parse_point_body(s@, i as int) is Some,
        r is Some ==> r->Some_0.0.deep_view() == parse_point_body(s@, i as int)->Some_0.0,
        r is Some ==> r->Some_0.1 as int == parse_point_body(s@, i as int)->Some_0.1,
        r is Some ==> i <= r->Some_0.1 <= s@.len(),
{
    let n = s.unicode_len();
    if i < n && s.get_char(i) == '(' {
        let j = skip_ws_exec(s, i + 1);
        match parse_coord_exec(s, j) {
            Option::None => Option::None,
            Option::Some((c, k)) => {
                let m = skip_ws_exec(s, k);
                if m < n && s.get_char(m) == ')' {
                    Option::Some((c, m + 1))
                } else {
                    Option::None
                }
            },
        }
    } else {
        Option::None
    }
}

fn keyword_at_exec(s: &str, i: usize, kw: &str) -> (b: bool)
    requires
        i <= s@.len(),
    ensures
        b == keyword_at(s@, i as int, kw@),
{
    let n = s.unicode_len();
    let m = kw.unicode_len();
    if n - i < m {
        return false;
    }
    let mut t: usize = 0;
    while t < m
        invariant
            0 <= t <= m,
            i + m <= n,
            n == s@.len(),
            m == kw@.len(),
            forall|u: int| 0 <= u < t ==> keyword_char(s@[i + u], kw@[u]),
        decreases m - t,
    {
        let c = s.get_char(i + t);
        let k = kw.get_char(t);
        if !(c == k || c as u32 == k as u32 + 32) {
            return false;
        }
        t += 1;
    }
    true
}

/// Parse a well-known-text string into its structured geometry: exactly the
/// geometry the grammar gives the text, or nothing where the text is
/// malformed or of an unsupported subtype.
pub fn parse_wkt(s: &str) -> (r: Option<Geometry>)
    ensures
        r is Some <==> wkt_model(s@) is Some,
        r is Some ==> r->Some_0.deep_view() == wkt_model(s@)->Some_0,
{
    let n = s.unicode_len();
    let i = skip_ws_exec(s, 0);
    if keyword_at_exec(s, i, "MULTIPOLYGON") {
        proof {
            reveal_strlit("MULTIPOLYGON");
        }
        let j = skip_ws_exec(s, i + 12);
        match parse_polys_exec(s, j) {
            Option::None => Option::None,
            Option::Some((ps, e)) => {
                if skip_ws_exec(s, e) == n {
                    Option::Some(Geometry::MultiPolygon(ps))
                } else {
                    Option::None
                }
            },
        }
    } else if keyword_at_exec(s, i, "MULTILINESTRING") {
        proof {
            reveal_strlit("MULTILINESTRING");
        }
        let j = skip_ws_exec(s, i + 15);
        match parse_rings_exec(s, j) {
            Option::None => Option::None,
            Option::Some((rs, e)) => {
                if skip_ws_exec(s, e) == n {
                    Option::Some(Geometry::MultiLineString(rs))
                } else {
                    Option::None
                }
            },
        }
    } else if keyword_at_exec(s, i, "MULTIPOINT") {
        proof {
            reveal_strlit("MULTIPOINT");
        }
        let j = skip_ws_exec(s, i + 10);
        match parse_ring_exec(s, j) {
            Option::None => Option::None,
            Option::Some((cs, e)) => {
                if skip_ws_exec(s, e) == n {
                    Option::Some(Geometry::MultiPoint(cs))
                } else {
                    Option::None
                }
            },
        }
    } else if keyword_at_exec(s, i, "LINESTRING") {
        proof {
            reveal_strlit("LINESTRING");
        }
        let j = skip_ws_exec(s, i + 10);
        match parse_ring_exec(s, j) {
            Option::None => Option::None,
            Option::Some((cs, e)) => {
                if skip_ws_exec(s, e) == n {
                    Option::Some(Geometry::LineString(cs))
                } else {
                    Option::None
                }
            },
        }
    } else if keyword_at_exec(s, i, "POLYGON") {
        proof {
            reveal_strlit("POLYGON");
        }
        let j = skip_ws_exec(s, i + 7);
        match parse_rings_exec(s, j) {
            Option::None => Option::None,
            Option::Some((rs, e)) => {
                if skip_ws_exec(s, e) == n {
                    Option::Some(Geometry::Polygon(rs))
                } else {
                    Option::None
                }
            },
        }
    } else if keyword_at_exec(s, i, "POINT") {
        proof {
            reveal_strlit("POINT");
        }
        let j = skip_ws_exec(s, i + 5);
        match parse_point_body_exec(s, j) {
            Option::None => Option::None,
            Option::Some((c, e)) => {
                if skip_ws_exec(s, e) == n {
                    Option::Some(Geometry::Point(c))
                } else {
                    Option::None
                }
            },
        }
    } else {
        Option::None
    }
}

/// Convert a structured geometry into the interchange form. The conversion
/// keeps the whole coordinate structure.
pub fn to_feature(g: Geometry) -> (f: Feature)
    ensures
        f.deep_view() == feature_model_of(g.deep_view()),
{
    match g {
        Geometry::Point(c) => Feature {
            kind: GeometryKind::Point,
            coordinates: Coordinates::One(c),
        },
        Geometry::LineString(cs) => Feature {
            kind: GeometryKind::LineString,
            coordinates: Coordinates::Many(cs),
        },
        Geometry::Polygon(rs) => Feature {
            kind: GeometryKind::Polygon,
            coordinates: Coordinates::Nested(rs),
        },
        Geometry::MultiPoint(cs) => Feature {
            kind: GeometryKind::MultiPoint,
            coordinates: Coordinates::Many(cs),
        },
        Geometry::MultiLineString(rs) => Feature {
            kind: GeometryKind::MultiLineString,
            coordinates: Coordinates::Nested(rs),
        },
        Geometry::MultiPolygon(ps) => Feature {
            kind: GeometryKind::MultiPolygon,
            coordinates: Coordinates::DoublyNested(ps),
        },
    }
}

/// Convert one well-known-text string into the interchange form, or nothing
/// where the text is malformed, empty, or of an unsupported subtype. A
/// failure here is a per-record condition, never an error of the request.
pub fn transcode(wkt: &str) -> (r: Option<Feature>)
    ensures
        r is Some <==> wkt_model(wkt@) is Some,
        r is Some ==> r->Some_0.deep_view() == feature_model_of(wkt_model(wkt@)->Some_0),
{
    match parse_wkt(wkt) {
        Option::None => Option::None,
        Option::Some(g) => Option::Some(to_feature(g)),
    }
}

/// Whether the whole string is one numeric token of the text format.
pub open spec fn is_numeric_token(s: Seq<char>) -> bool {
    number_end(s, 0) == Option::Some(s.len() as int)
}

/// Decide whether the whole string is one numeric token of the text format.
pub fn is_numeric_token_exec(s: &str) -> (b: bool)
    ensures
        b == is_numeric_token(s@),
{
    let n = s.unicode_len();
    match number_end_exec(s, 0) {
        Option::None => false,
        Option::Some(e) => e == n,
    }
}

// ============================================================================
// Laws of the transcoder.
// ============================================================================

/// Law: the interchange form of a well-formed text keeps the geometry kind
/// and the vertex count of the text's geometry.
pub proof fn lemma_transcode_preserves_structure(s: Seq<char>)
    requires
        wkt_model(s) is Some,
    ensures
        feature_model_of(wkt_model(s)->Some_0).kind == geometry_kind(wkt_model(s)->Some_0),
        feature_vertex_count(feature_model_of(wkt_model(s)->Some_0)) == geometry_vertex_count(
            wkt_model(s)->Some_0,
        ),
{
}

/// Law: the empty text denotes no geometry, so transcoding it returns
/// nothing.
pub proof fn lemma_empty_text_is_malformed(s: Seq<char>)
    requires
        s.len() == 0,
    ensures
        wkt_model(s) is None,
{
    reveal_strlit("MULTIPOLYGON");
    reveal_strlit("MULTILINESTRING");
    reveal_strlit("MULTIPOINT");
    reveal_strlit("LINESTRING");
    reveal_strlit("POLYGON");
    reveal_strlit("POINT");
}

} // verus!
