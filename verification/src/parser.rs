//! Chunk-to-tree parsing.
//!
//! This module turns the flat chunk stream into a nested element tree.
//! Elements carry their attributes as key/value pairs; an attribute map
//! is modelled as the pairs folded left to right, later pairs winning,
//! which matches replace-on-insert semantics.  The tree builder keeps an
//! arena of element records addressed by index and a stack of open
//! elements, and copies the finished tree out bottom-up.

use vstd::prelude::*;

use crate::chunk_header::{spec_chunk_header, ChunkHeader};
use crate::chunk_types::ChunkType;
use crate::cursor::{can_read, le16, le32, AxmlCursor};
use crate::error::FormatError;
use crate::res_value::{spec_render, spec_res_value, ResValue};
use crate::resource_map::ResourceMap;
use crate::string_pool::StringPool;

verus! {

use vstd::string::StringExecFns;

/// Representation of an XML element with optional children.
#[derive(Debug)]
pub struct XmlElement {
    /// Type of element (e.g. `activity`, `service`).
    pub element_type: String,
    /// Attributes of the element, as key/value pairs in decode order;
    /// for lookups a later pair with the same key wins.
    pub attributes: Vec<(String, String)>,
    /// The children of the element, in document order.
    pub children: Vec<XmlElement>,
}

/// Mathematical model of an element: its type, its attribute map and
/// its children, in order.
#[verifier::ext_equal]
pub ghost struct ElemModel {
    pub element_type: Seq<char>,
    pub attributes: Map<Seq<char>, Seq<char>>,
    pub children: Seq<ElemModel>,
}

/// The views of a sequence of string pairs.
pub open spec fn pair_views(ps: Seq<(String, String)>) -> Seq<(Seq<char>, Seq<char>)> {
    ps.map_values(|p: (String, String)| (p.0@, p.1@))
}

/// The map a pair sequence stands for: pairs inserted left to right, so
/// a later pair with the same key wins.
pub open spec fn pairs_to_map(ps: Seq<(Seq<char>, Seq<char>)>) -> Map<Seq<char>, Seq<char>>
    decreases ps.len(),
{
    if ps.len() == 0 {
        Map::empty()
    } else {
        pairs_to_map(ps.drop_last()).insert(ps.last().0, ps.last().1)
    }
}

/// A key none of the pairs carries is not in the map.
pub proof fn lemma_pairs_to_map_absent(ps: Seq<(Seq<char>, Seq<char>)>, k: Seq<char>)
    requires
        forall|j: int| 0 <= j < ps.len() ==> (#[trigger] ps[j]).0 != k,
    ensures
        !pairs_to_map(ps).contains_key(k),
    decreases ps.len(),
{
    if ps.len() > 0 {
        lemma_pairs_to_map_absent(ps.drop_last(), k);
    }
}

/// The map holds, for each key it contains, the value of the last pair
/// carrying that key.
pub proof fn lemma_pairs_to_map_found(ps: Seq<(Seq<char>, Seq<char>)>, k: Seq<char>, j: int)
    requires
        0 <= j < ps.len(),
        ps[j].0 == k,
        forall|l: int| j < l < ps.len() ==> (#[trigger] ps[l]).0 != k,
    ensures
        pairs_to_map(ps).contains_key(k),
        pairs_to_map(ps)[k] == ps[j].1,
    decreases ps.len(),
{
    if j == ps.len() - 1 {
    } else {
        lemma_pairs_to_map_found(ps.drop_last(), k, j);
    }
}

/// Model of an element value: the attribute pairs folded into a map,
/// children modelled in order.
pub open spec fn elem_model(e: XmlElement) -> ElemModel
    decreases e,
{
    ElemModel {
        element_type: e.element_type@,
        attributes: pairs_to_map(pair_views(e.attributes@)),
        children: elem_models(e.children@),
    }
}

/// Models of a sequence of elements, in order.
pub open spec fn elem_models(es: Seq<XmlElement>) -> Seq<ElemModel>
    decreases es,
{
    if es.len() == 0 {
        seq![]
    } else {
        elem_models(es.drop_last()).push(elem_model(es.last()))
    }
}

impl View for XmlElement {
    type V = ElemModel;

    open spec fn view(&self) -> ElemModel {
        elem_model(*self)
    }
}

/// A sequence of elements and its models have the same length.
pub proof fn lemma_elem_models_len(es: Seq<XmlElement>)
    ensures
        elem_models(es).len() == es.len(),
    decreases es.len(),
{
    if es.len() > 0 {
        lemma_elem_models_len(es.drop_last());
    }
}

/// Indexing into element models mirrors indexing into the elements.
pub proof fn lemma_elem_models_index(es: Seq<XmlElement>, i: int)
    requires
        0 <= i < es.len(),
    ensures
        elem_models(es).len() == es.len(),
        elem_models(es)[i] == elem_model(es[i]),
    decreases es.len(),
{
    lemma_elem_models_len(es);
    if i < es.len() - 1 {
        lemma_elem_models_index(es.drop_last(), i);
    } else {
        lemma_elem_models_len(es.drop_last());
    }
}

/// Look a key up among string pairs, later pairs winning.  The result
/// is exactly the entry of the modelled map.
fn lookup_pair(v: &Vec<(String, String)>, key: &String) -> (r: Option<String>)
    ensures
        match r {
            Some(s) => pairs_to_map(pair_views(v@)).contains_key(key@) && s@ == pairs_to_map(
                pair_views(v@),
            )[key@],
            None => !pairs_to_map(pair_views(v@)).contains_key(key@),
        },
{
    let mut i: usize = v.len();
    while i > 0
        invariant
            i <= v@.len(),
            forall|l: int| i <= l < v@.len() ==> (#[trigger] pair_views(v@)[l]).0 != key@,
        decreases i,
    {
        i = i - 1;
        if v[i].0 == *key {
            proof {
                lemma_pairs_to_map_found(pair_views(v@), key@, i as int);
            }
            return Some(v[i].1.clone());
        }
    }
    proof {
        lemma_pairs_to_map_absent(pair_views(v@), key@);
    }
    None
}

impl XmlElement {
    /// A structural copy of the element: same type, same attribute
    /// pairs, same children.
    pub fn deep_copy(&self) -> (r: XmlElement)
        ensures
            r@ == self@,
        decreases *self,
    {
        let element_type: String = self.element_type.clone();
        let attributes: Vec<(String, String)> = clone_pairs(&self.attributes);
        let mut children: Vec<XmlElement> = Vec::new();
        let n: usize = self.children.len();
        proof {
            assert(elem_models(children@) =~= elem_models(self.children@.take(0)));
        }
        let mut j: usize = 0;
        while j < n
            invariant
                j <= n,
                n == self.children@.len(),
                elem_models(children@) == elem_models(self.children@.take(j as int)),
            decreases n - j,
        {
            let child: XmlElement = self.children[j].deep_copy();
            let ghost prev = children@;
            children.push(child);
            proof {
                assert(children@.drop_last() =~= prev);
                assert(self.children@.take(j + 1).drop_last() =~= self.children@.take(j as int));
                assert(self.children@.take(j + 1).last() == self.children@[j as int]);
            }
            j = j + 1;
        }
        let r = XmlElement { element_type, attributes, children };
        proof {
            assert(self.children@.take(n as int) =~= self.children@);
            assert(elem_model(r) =~~= elem_model(*self));
        }
        r
    }

    /// The value under an attribute key, if the element carries one.
    pub fn get_attribute(&self, key: &String) -> (r: Option<String>)
        ensures
            match r {
                Some(s) => self@.attributes.contains_key(key@) && s@ == self@.attributes[key@],
                None => !self@.attributes.contains_key(key@),
            },
    {
        lookup_pair(&self.attributes, key)
    }
}

/// Decoding a start-namespace chunk at `initial`: header, then line
/// number and comment (discarded), then the prefix and URI string
/// indices.  On success the namespace map gains `uri -> prefix` and the
/// final position is just past the four fields.  An index outside the
/// pool fails with `StringIndexOutOfRange`.
pub open spec fn spec_start_namespace(
    b: Seq<u8>,
    initial: int,
    strings: Seq<Seq<char>>,
    ns: Map<Seq<char>, Seq<char>>,
) -> Result<(Map<Seq<char>, Seq<char>>, int), FormatError> {
    match spec_chunk_header(b, initial, ChunkType::ResXmlStartNamespaceType) {
        Err(e) => Err(e),
        Ok((_h, p)) => {
            if !can_read(b, p, 16) {
                Err(FormatError::TruncatedInput)
            } else {
                let prefix = le32(b, p + 8);
                let uri = le32(b, p + 12);
                if prefix >= strings.len() || uri >= strings.len() {
                    Err(FormatError::StringIndexOutOfRange)
                } else {
                    Ok((ns.insert(strings[uri], strings[prefix]), p + 16))
                }
            }
        },
    }
}

/// Decoding an end-namespace chunk at `initial`: header, then four
/// discarded fields.  The namespace table keeps its entries: the scope
/// is flat for the whole document.
pub open spec fn spec_end_namespace(b: Seq<u8>, initial: int) -> Result<int, FormatError> {
    match spec_chunk_header(b, initial, ChunkType::ResXmlEndNamespaceType) {
        Err(e) => Err(e),
        Ok((_h, p)) => {
            if !can_read(b, p, 16) {
                Err(FormatError::TruncatedInput)
            } else {
                Ok(p + 16)
            }
        },
    }
}

/// Decoding one attribute at `pos`: namespace, name and raw-value
/// string indices, then the typed value.  The key is the name alone, or
/// `prefix:name` when a namespace is given, the prefix found in the
/// namespace map under the namespace URI; a URI never declared fails
/// with `UnresolvedNamespace`.  The value is the raw string when its
/// index is not the absent sentinel, else the typed value's rendering.
pub open spec fn spec_attribute(
    b: Seq<u8>,
    pos: int,
    strings: Seq<Seq<char>>,
    ns: Map<Seq<char>, Seq<char>>,
) -> Result<((Seq<char>, Seq<char>), int), FormatError> {
    if !can_read(b, pos, 12) {
        Err(FormatError::TruncatedInput)
    } else {
        let ans = le32(b, pos);
        let aname = le32(b, pos + 4);
        let raw = le32(b, pos + 8);
        match spec_res_value(b, pos + 12) {
            Err(e) => Err(e),
            Ok((rv, p2)) => {
                if ans != 0xffffffff && ans >= strings.len() {
                    Err(FormatError::StringIndexOutOfRange)
                } else if ans != 0xffffffff && !ns.contains_key(strings[ans]) {
                    Err(FormatError::UnresolvedNamespace)
                } else if aname >= strings.len() {
                    Err(FormatError::StringIndexOutOfRange)
                } else if raw != 0xffffffff && raw >= strings.len() {
                    Err(FormatError::StringIndexOutOfRange)
                } else {
                    let key = if ans != 0xffffffff {
                        ns[strings[ans]] + seq![':'] + strings[aname]
                    } else {
                        strings[aname]
                    };
                    let value = if raw != 0xffffffff {
                        strings[raw]
                    } else {
                        spec_render(rv)
                    };
                    Ok(((key, value), p2))
                }
            },
        }
    }
}

/// Decoding `n` attributes in sequence starting at `pos`, each 20 bytes
/// after the one before; the first failing attribute's error wins.
pub open spec fn spec_attributes(
    b: Seq<u8>,
    pos: int,
    n: int,
    strings: Seq<Seq<char>>,
    ns: Map<Seq<char>, Seq<char>>,
) -> Result<(Seq<(Seq<char>, Seq<char>)>, int), FormatError>
    decreases n,
{
    if n <= 0 {
        Ok((seq![], pos))
    } else {
        match spec_attributes(b, pos, n - 1, strings, ns) {
            Err(e) => Err(e),
            Ok((ps, p)) => match spec_attribute(b, p, strings, ns) {
                Err(e) => Err(e),
                Ok((pair, p2)) => Ok((ps.push(pair), p2)),
            },
        }
    }
}

/// Once an attribute fails, decoding the whole attribute run fails with
/// that attribute's error, provided the attributes before it succeeded.
pub proof fn lemma_attributes_error(
    b: Seq<u8>,
    pos: int,
    n: int,
    i: int,
    strings: Seq<Seq<char>>,
    ns: Map<Seq<char>, Seq<char>>,
)
    requires
        0 <= i < n,
        spec_attributes(b, pos, i, strings, ns) is Ok,
        spec_attribute(b, (spec_attributes(b, pos, i, strings, ns)->Ok_0).1, strings, ns) is Err,
    ensures
        spec_attributes(b, pos, n, strings, ns) == Err::<
            (Seq<(Seq<char>, Seq<char>)>, int),
            FormatError,
        >(spec_attribute(b, (spec_attributes(b, pos, i, strings, ns)->Ok_0).1, strings, ns)->Err_0),
    decreases n,
{
    if i < n - 1 {
        lemma_attributes_error(b, pos, n - 1, i, strings, ns);
    }
}

/// On success, an attribute run only moves forward, and for a nonempty
/// run it ends inside the buffer.
pub proof fn lemma_attributes_bounds(
    b: Seq<u8>,
    pos: int,
    n: int,
    strings: Seq<Seq<char>>,
    ns: Map<Seq<char>, Seq<char>>,
)
    requires
        spec_attributes(b, pos, n, strings, ns) is Ok,
    ensures
        pos <= (spec_attributes(b, pos, n, strings, ns)->Ok_0).1,
        n > 0 ==> (spec_attributes(b, pos, n, strings, ns)->Ok_0).1 <= b.len(),
    decreases n,
{
    if n > 0 {
        lemma_attributes_bounds(b, pos, n - 1, strings, ns);
    }
}

/// Decoding a start-element chunk at `initial`: header; line number and
/// comment (discarded); the element's namespace (discarded), its name
/// index, the attribute-block size (discarded), the attribute count and
/// three reserved style indices; then the attributes.  The element type
/// is the pool string under the name index.
pub open spec fn spec_start_element(
    b: Seq<u8>,
    initial: int,
    strings: Seq<Seq<char>>,
    ns: Map<Seq<char>, Seq<char>>,
) -> Result<((Seq<char>, Seq<(Seq<char>, Seq<char>)>), int), FormatError> {
    match spec_chunk_header(b, initial, ChunkType::ResXmlStartElementType) {
        Err(e) => Err(e),
        Ok((_h, p)) => {
            if !can_read(b, p, 28) {
                Err(FormatError::TruncatedInput)
            } else {
                let name = le32(b, p + 12);
                let count = le16(b, p + 20);
                if name >= strings.len() {
                    Err(FormatError::StringIndexOutOfRange)
                } else {
                    match spec_attributes(b, p + 28, count, strings, ns) {
                        Err(e) => Err(e),
                        Ok((ps, p2)) => Ok(((strings[name], ps), p2)),
                    }
                }
            }
        },
    }
}

/// Decoding an end-element chunk at `initial`: header; line number,
/// comment and namespace (discarded); then the name index, resolved in
/// the pool.
pub open spec fn spec_end_element(b: Seq<u8>, initial: int, strings: Seq<Seq<char>>) -> Result<
    (Seq<char>, int),
    FormatError,
> {
    match spec_chunk_header(b, initial, ChunkType::ResXmlEndElementType) {
        Err(e) => Err(e),
        Ok((_h, p)) => {
            if !can_read(b, p, 16) {
                Err(FormatError::TruncatedInput)
            } else {
                let name = le32(b, p + 12);
                if name >= strings.len() {
                    Err(FormatError::StringIndexOutOfRange)
                } else {
                    Ok((strings[name], p + 16))
                }
            }
        },
    }
}

/// Parse the start of a namespace whose tag the caller has just read,
/// recording `uri -> prefix`.  Exact with respect to
/// [`spec_start_namespace`]; on failure the table is unchanged.
pub fn parse_start_namespace(
    axml_buff: &mut AxmlCursor,
    strings: &Vec<String>,
    namespaces: &mut Vec<(String, String)>,
) -> (r: Result<(), FormatError>)
    requires
        old(axml_buff).pos >= 2,
    ensures
        final(axml_buff).data@ == old(axml_buff).data@,
        match spec_start_namespace(
            old(axml_buff).data@,
            old(axml_buff).pos - 2,
            crate::string_pool::string_views(strings@),
            pairs_to_map(pair_views(old(namespaces)@)),
        ) {
            Ok((m, p)) => {
                &&& r is Ok
                &&& pairs_to_map(pair_views(final(namespaces)@)) == m
                &&& final(axml_buff).pos == p
            },
            Err(e) => r == Err::<(), FormatError>(e) && final(namespaces)@ == old(namespaces)@,
        },
{
    let offset: usize = axml_buff.position();
    axml_buff.set_position(offset - 2);

    let _header: ChunkHeader = ChunkHeader::from_buff(
        axml_buff,
        ChunkType::ResXmlStartNamespaceType,
    )?;

    let _line_number: u32 = axml_buff.read_u32()?;
    let _comment: u32 = axml_buff.read_u32()?;
    let prefix: u32 = axml_buff.read_u32()?;
    let uri: u32 = axml_buff.read_u32()?;

    if prefix as usize >= strings.len() || uri as usize >= strings.len() {
        return Err(FormatError::StringIndexOutOfRange);
    }
    let prefix_str: String = strings[prefix as usize].clone();
    let uri_str: String = strings[uri as usize].clone();
    namespaces.push((uri_str, prefix_str));
    proof {
        assert(pair_views(final(namespaces)@).drop_last() =~= pair_views(old(namespaces)@));
    }
    Ok(())
}

/// Parse the end of a namespace whose tag the caller has just read; its
/// fields are discarded and the namespace table keeps its entries.
pub fn parse_end_namespace(axml_buff: &mut AxmlCursor, _strings: &Vec<String>) -> (r: Result<
    (),
    FormatError,
>)
    requires
        old(axml_buff).pos >= 2,
    ensures
        final(axml_buff).data@ == old(axml_buff).data@,
        match spec_end_namespace(old(axml_buff).data@, old(axml_buff).pos - 2) {
            Ok(p) => r is Ok && final(axml_buff).pos == p,
            Err(e) => r == Err::<(), FormatError>(e),
        },
{
    let offset: usize = axml_buff.position();
    axml_buff.set_position(offset - 2);

    let _header: ChunkHeader = ChunkHeader::from_buff(
        axml_buff,
        ChunkType::ResXmlEndNamespaceType,
    )?;

    let _line_number: u32 = axml_buff.read_u32()?;
    let _comment: u32 = axml_buff.read_u32()?;
    let _prefix: u32 = axml_buff.read_u32()?;
    let _uri: u32 = axml_buff.read_u32()?;
    Ok(())
}

/// Parse the start of an element whose tag the caller has just read.
/// Exact with respect to [`spec_start_element`]: the returned element
/// carries the resolved type and the decoded attribute pairs, and no
/// children yet.
#[verifier::loop_isolation(false)]
#[verifier::rlimit(60)]
pub fn parse_start_element(
    axml_buff: &mut AxmlCursor,
    strings: &Vec<String>,
    namespace_prefixes: &Vec<(String, String)>,
) -> (r: Result<XmlElement, FormatError>)
    requires
        old(axml_buff).pos >= 2,
    ensures
        final(axml_buff).data@ == old(axml_buff).data@,
        match spec_start_element(
            old(axml_buff).data@,
            old(axml_buff).pos - 2,
            crate::string_pool::string_views(strings@),
            pairs_to_map(pair_views(namespace_prefixes@)),
        ) {
            Ok(((ty, ps), p)) => {
                &&& r matches Ok(e)
                &&& e.element_type@ == ty
                &&& pair_views(e.attributes@) == ps
                &&& e.children@.len() == 0
                &&& final(axml_buff).pos == p
            },
            Err(e) => r == Err::<XmlElement, FormatError>(e),
        },
{
    let ghost b = old(axml_buff).data@;
    let ghost strs = crate::string_pool::string_views(strings@);
    let ghost nsm = pairs_to_map(pair_views(namespace_prefixes@));

    let offset: usize = axml_buff.position();
    axml_buff.set_position(offset - 2);
    let ghost initial = offset - 2;

    let _header: ChunkHeader = ChunkHeader::from_buff(
        axml_buff,
        ChunkType::ResXmlStartElementType,
    )?;

    let _line_number: u32 = axml_buff.read_u32()?;
    let _comment: u32 = axml_buff.read_u32()?;
    let _namespace: u32 = axml_buff.read_u32()?;
    let name: u32 = axml_buff.read_u32()?;
    let _attribute_size: u32 = axml_buff.read_u32()?;
    let attribute_count: u16 = axml_buff.read_u16()?;
    let _id_index: u16 = axml_buff.read_u16()?;
    let _class_index: u16 = axml_buff.read_u16()?;
    let _style_index: u16 = axml_buff.read_u16()?;

    if name as usize >= strings.len() {
        return Err(FormatError::StringIndexOutOfRange);
    }
    let element_type: String = strings[name as usize].clone();

    let ghost attrs_pos = initial + 36;
    let mut decoded_attrs: Vec<(String, String)> = Vec::new();
    let mut i: usize = 0;
    proof {
        assert(pair_views(decoded_attrs@) =~= Seq::<(Seq<char>, Seq<char>)>::empty());
    }
    while i < attribute_count as usize
        invariant
            axml_buff.data@ == b,
            i <= attribute_count,
            spec_attributes(b, attrs_pos, i as int, strs, nsm) is Ok,
            pair_views(decoded_attrs@) == (spec_attributes(b, attrs_pos, i as int, strs, nsm)->Ok_0).0,
            axml_buff.pos == (spec_attributes(b, attrs_pos, i as int, strs, nsm)->Ok_0).1,
        decreases attribute_count - i,
    {
        let ghost apos = axml_buff.pos as int;
        let attr_namespace: u32 = match axml_buff.read_u32() {
            Ok(v) => v,
            Err(e) => {
                proof {
                    lemma_attributes_error(b, attrs_pos, attribute_count as int, i as int, strs, nsm);
                }
                return Err(e);
            },
        };
        let attr_name: u32 = match axml_buff.read_u32() {
            Ok(v) => v,
            Err(e) => {
                proof {
                    lemma_attributes_error(b, attrs_pos, attribute_count as int, i as int, strs, nsm);
                }
                return Err(e);
            },
        };
        let attr_raw_val: u32 = match axml_buff.read_u32() {
            Ok(v) => v,
            Err(e) => {
                proof {
                    lemma_attributes_error(b, attrs_pos, attribute_count as int, i as int, strs, nsm);
                }
                return Err(e);
            },
        };
        let data_value_type: ResValue = match ResValue::from_buff(axml_buff) {
            Ok(v) => v,
            Err(e) => {
                proof {
                    lemma_attributes_error(b, attrs_pos, attribute_count as int, i as int, strs, nsm);
                }
                return Err(e);
            },
        };

        let mut decoded_attr_key: String = String::new();
        if attr_namespace != 0xffffffff {
            if attr_namespace as usize >= strings.len() {
                proof {
                    lemma_attributes_error(b, attrs_pos, attribute_count as int, i as int, strs, nsm);
                }
                return Err(FormatError::StringIndexOutOfRange);
            }
            let ns_prefix: Option<String> = lookup_pair(
                namespace_prefixes,
                &strings[attr_namespace as usize],
            );
            match ns_prefix {
                None => {
                    proof {
                        lemma_attributes_error(
                            b,
                            attrs_pos,
                            attribute_count as int,
                            i as int,
                            strs,
                            nsm,
                        );
                    }
                    return Err(FormatError::UnresolvedNamespace);
                },
                Some(prefix) => {
                    decoded_attr_key.append(prefix.as_str());
                    decoded_attr_key.append(":");
                },
            }
        }
        if attr_name as usize >= strings.len() {
            proof {
                lemma_attributes_error(b, attrs_pos, attribute_count as int, i as int, strs, nsm);
            }
            return Err(FormatError::StringIndexOutOfRange);
        }
        decoded_attr_key.append(strings[attr_name as usize].as_str());

        let decoded_attr_val: String;
        if attr_raw_val != 0xffffffff {
            if attr_raw_val as usize >= strings.len() {
                proof {
                    lemma_attributes_error(
                        b,
                        attrs_pos,
                        attribute_count as int,
                        i as int,
                        strs,
                        nsm,
                    );
                }
                return Err(FormatError::StringIndexOutOfRange);
            }
            decoded_attr_val = strings[attr_raw_val as usize].clone();
        } else {
            decoded_attr_val = data_value_type.render();
        }

        proof {
            let key_spec = if le32(b, apos) != 0xffffffff {
                nsm[strs[le32(b, apos)]] + seq![':'] + strs[le32(b, apos + 4)]
            } else {
                strs[le32(b, apos + 4)]
            };
            if le32(b, apos) != 0xffffffff {
                reveal_strlit(":");
                assert(":"@ =~= seq![':']);
                assert(Seq::<char>::empty() + nsm[strs[le32(b, apos)]] + ":"@ + strs[le32(
                    b,
                    apos + 4,
                )] =~= key_spec);
            } else {
                assert(Seq::<char>::empty() + strs[le32(b, apos + 4)] =~= key_spec);
            }
            assert(decoded_attr_key@ == key_spec);
        }
        let ghost prev_pairs = pair_views(decoded_attrs@);
        decoded_attrs.push((decoded_attr_key, decoded_attr_val));
        proof {
            assert(pair_views(decoded_attrs@) =~= prev_pairs.push(
                (decoded_attrs@.last().0@, decoded_attrs@.last().1@),
            ));
        }
        i = i + 1;
    }

    proof {
        assert(spec_attributes(b, attrs_pos, attribute_count as int, strs, nsm)
            == spec_attributes(b, attrs_pos, i as int, strs, nsm));
    }
    Ok(XmlElement { element_type, attributes: decoded_attrs, children: Vec::new() })
}

/// Parse the end of an element whose tag the caller has just read,
/// returning the element name named by the chunk.  Exact with respect
/// to [`spec_end_element`].
pub fn parse_end_element(axml_buff: &mut AxmlCursor, strings: &Vec<String>) -> (r: Result<
    String,
    FormatError,
>)
    requires
        old(axml_buff).pos >= 2,
    ensures
        final(axml_buff).data@ == old(axml_buff).data@,
        match spec_end_element(
            old(axml_buff).data@,
            old(axml_buff).pos - 2,
            crate::string_pool::string_views(strings@),
        ) {
            Ok((nm, p)) => {
                &&& r matches Ok(s)
                &&& s@ == nm
                &&& final(axml_buff).pos == p
            },
            Err(e) => r == Err::<String, FormatError>(e),
        },
{
    let offset: usize = axml_buff.position();
    axml_buff.set_position(offset - 2);

    let _header: ChunkHeader = ChunkHeader::from_buff(axml_buff, ChunkType::ResXmlEndElementType)?;

    let _line_number: u32 = axml_buff.read_u32()?;
    let _comment: u32 = axml_buff.read_u32()?;
    let _namespace: u32 = axml_buff.read_u32()?;
    let name: u32 = axml_buff.read_u32()?;

    if name as usize >= strings.len() {
        return Err(FormatError::StringIndexOutOfRange);
    }
    Ok(strings[name as usize].clone())
}

/// On success a start-element chunk moves the cursor forward by at
/// least two bytes and never past the end of the buffer.
pub proof fn lemma_start_element_bounds(
    b: Seq<u8>,
    initial: int,
    strings: Seq<Seq<char>>,
    ns: Map<Seq<char>, Seq<char>>,
)
    requires
        spec_start_element(b, initial, strings, ns) is Ok,
    ensures
        initial + 2 <= (spec_start_element(b, initial, strings, ns)->Ok_0).1 <= b.len(),
{
    let p = initial + 8;
    let count = le16(b, p + 20);
    lemma_attributes_bounds(b, p + 28, count, strings, ns);
}

/// One record of the tree builder's arena: an element's type, its
/// attribute pairs, and the indices of its children.
pub struct ArenaNode {
    pub element_type: String,
    pub attributes: Vec<(String, String)>,
    pub children: Vec<usize>,
}

/// Model of one arena record.
#[verifier::ext_equal]
pub ghost struct NodeModel {
    pub element_type: Seq<char>,
    pub attributes: Seq<(Seq<char>, Seq<char>)>,
    pub children: Seq<int>,
}

/// Model of an arena record.
pub open spec fn node_model(n: ArenaNode) -> NodeModel {
    NodeModel {
        element_type: n.element_type@,
        attributes: pair_views(n.attributes@),
        children: n.children@.map_values(|c: usize| c as int),
    }
}

/// Models of the whole arena, in order.
pub open spec fn arena_model(ns: Seq<ArenaNode>) -> Seq<NodeModel> {
    ns.map_values(|n: ArenaNode| node_model(n))
}

/// A well-formed arena: every child index points past its parent and
/// into the arena, so the records form a forest rooted at the front.
pub open spec fn wf_arena(nodes: Seq<NodeModel>) -> bool {
    forall|i: int, j: int|
        0 <= i < nodes.len() && 0 <= j < nodes[i].children.len() ==> i < #[trigger] nodes[i].children[j]
            < nodes.len()
}

/// The element a well-formed arena describes at index `i`, children
/// rebuilt recursively.
pub open spec fn spec_build(nodes: Seq<NodeModel>, i: int) -> ElemModel
    decreases nodes.len() - i, 0nat,
    when 0 <= i < nodes.len() && wf_arena(nodes)
{
    ElemModel {
        element_type: nodes[i].element_type,
        attributes: pairs_to_map(nodes[i].attributes),
        children: spec_build_list(nodes, i, nodes[i].children),
    }
}

/// The elements the child indices `cs` of the record at `parent`
/// describe, in order.
pub open spec fn spec_build_list(nodes: Seq<NodeModel>, parent: int, cs: Seq<int>) -> Seq<ElemModel>
    decreases nodes.len() - parent - 1, cs.len(),
    when 0 <= parent && wf_arena(nodes) && (forall|j: int|
        0 <= j < cs.len() ==> parent < #[trigger] cs[j] < nodes.len())
{
    if cs.len() == 0 {
        seq![]
    } else {
        spec_build_list(nodes, parent, cs.drop_last()).push(spec_build(nodes, cs.last()))
    }
}

/// The whole state of the dispatch loop between chunks: the cursor
/// position, the document strings, the namespace table, the arena and
/// the stack of open records.
#[verifier::ext_equal]
pub ghost struct ParseState {
    pub pos: int,
    pub strings: Seq<Seq<char>>,
    pub namespaces: Map<Seq<char>, Seq<char>>,
    pub nodes: Seq<NodeModel>,
    pub stack: Seq<int>,
}

/// The state the dispatch loop starts from: the synthetic `manifest`
/// root open on the stack, no strings and no namespaces yet.
pub open spec fn init_state(start: int) -> ParseState {
    ParseState {
        pos: start,
        strings: seq![],
        namespaces: Map::empty(),
        nodes: seq![
            NodeModel { element_type: "manifest"@, attributes: seq![], children: seq![] },
        ],
        stack: seq![0],
    }
}

/// One step of the dispatch loop: the outcome of decoding the chunk
/// whose 2-byte tag stands at the current position.
///
/// A known tag dispatches to its chunk decoder, each of which
/// re-validates the full header against its own expected type; a null
/// tag is skipped, and so are the chunk types that carry nothing the
/// tree needs; an unknown tag fails.  A start-element whose type is
/// `manifest`, arriving while the stack holds exactly the synthetic
/// root, merges its attributes into the root; any other start-element
/// becomes a child of the open record and is pushed.  An end-element
/// pops; popping beyond the root fails, as does a start-element with
/// nothing open.  The resource-table chunk is skipped as an opaque
/// block of its declared size.
pub open spec fn spec_parse_step(b: Seq<u8>, s: ParseState) -> Result<ParseState, FormatError> {
    let tag = le16(b, s.pos);
    match crate::chunk_types::chunk_type_of(tag) {
        None => Err(FormatError::UnknownChunkType(tag as u16)),
        Some(t) => match t {
            ChunkType::ResStringPoolType => match crate::string_pool::spec_string_pool(b, s.pos) {
                Err(e) => Err(e),
                Ok((sp, p)) => Ok(ParseState { pos: p, strings: s.strings + sp.appended, ..s }),
            },
            ChunkType::ResTableType => match spec_chunk_header(b, s.pos, ChunkType::ResTableType) {
                Err(e) => Err(e),
                Ok((h, _p)) => {
                    if s.pos + h.chunk_size > b.len() {
                        Err(FormatError::TruncatedInput)
                    } else {
                        Ok(ParseState { pos: s.pos + h.chunk_size, ..s })
                    }
                },
            },
            ChunkType::ResXmlType => match spec_chunk_header(b, s.pos, ChunkType::ResXmlType) {
                Err(e) => Err(e),
                Ok((_h, p)) => Ok(ParseState { pos: p, ..s }),
            },
            ChunkType::ResXmlStartNamespaceType => match spec_start_namespace(
                b,
                s.pos,
                s.strings,
                s.namespaces,
            ) {
                Err(e) => Err(e),
                Ok((m, p)) => Ok(ParseState { pos: p, namespaces: m, ..s }),
            },
            ChunkType::ResXmlEndNamespaceType => match spec_end_namespace(b, s.pos) {
                Err(e) => Err(e),
                Ok(p) => Ok(ParseState { pos: p, ..s }),
            },
            ChunkType::ResXmlStartElementType => match spec_start_element(
                b,
                s.pos,
                s.strings,
                s.namespaces,
            ) {
                Err(e) => Err(e),
                Ok(((ty, ps), p)) => {
                    if ty == "manifest"@ && s.stack == seq![0int] {
                        Ok(
                            ParseState {
                                pos: p,
                                nodes: s.nodes.update(
                                    0,
                                    NodeModel {
                                        element_type: s.nodes[0].element_type,
                                        attributes: s.nodes[0].attributes + ps,
                                        children: s.nodes[0].children,
                                    },
                                ),
                                ..s
                            },
                        )
                    } else if s.stack.len() == 0 {
                        Err(FormatError::UnbalancedElement)
                    } else {
                        let parent = s.stack.last();
                        let idx = s.nodes.len() as int;
                        let pn = s.nodes[parent];
                        Ok(
                            ParseState {
                                pos: p,
                                nodes: s.nodes.update(
                                    parent,
                                    NodeModel { children: pn.children.push(idx), ..pn },
                                ).push(
                                    NodeModel { element_type: ty, attributes: ps, children: seq![] },
                                ),
                                stack: s.stack.push(idx),
                                ..s
                            },
                        )
                    }
                },
            },
            ChunkType::ResXmlEndElementType => match spec_end_element(b, s.pos, s.strings) {
                Err(e) => Err(e),
                Ok((_nm, p)) => {
                    if s.stack.len() == 0 {
                        Err(FormatError::UnbalancedElement)
                    } else {
                        Ok(ParseState { pos: p, stack: s.stack.drop_last(), ..s })
                    }
                },
            },
            ChunkType::ResXmlResourceMapType => match crate::resource_map::spec_resource_map(
                b,
                s.pos,
            ) {
                Err(e) => Err(e),
                Ok((_h, _ids, p)) => Ok(ParseState { pos: p, ..s }),
            },
            _ => Ok(ParseState { pos: s.pos + 2, ..s }),
        },
    }
}

/// A successful step moves at least past its own tag and never past
/// the end of the buffer.
pub proof fn lemma_parse_step_bounds(b: Seq<u8>, s: ParseState)
    requires
        0 <= s.pos,
        s.pos + 2 <= b.len(),
        spec_parse_step(b, s) is Ok,
    ensures
        s.pos + 2 <= (spec_parse_step(b, s)->Ok_0).pos <= b.len(),
{
    let tag = le16(b, s.pos);
    match crate::chunk_types::chunk_type_of(tag) {
        None => {},
        Some(t) => match t {
            ChunkType::ResStringPoolType => {
                if crate::string_pool::spec_string_pool(b, s.pos) is Ok {
                    crate::string_pool::lemma_string_pool_bounds(b, s.pos);
                }
            },
            ChunkType::ResXmlStartElementType => {
                if spec_start_element(b, s.pos, s.strings, s.namespaces) is Ok {
                    lemma_start_element_bounds(b, s.pos, s.strings, s.namespaces);
                }
            },
            _ => {},
        },
    }
}

/// The dispatch loop: step through the chunk stream until the end of
/// input at a chunk boundary, then yield the arena.
pub open spec fn spec_parse_loop(b: Seq<u8>, s: ParseState) -> Result<Seq<NodeModel>, FormatError>
    decreases b.len() - s.pos,
    when 0 <= s.pos
    via spec_parse_loop_decreases
{
    if s.pos + 2 > b.len() {
        Ok(s.nodes)
    } else {
        match spec_parse_step(b, s) {
            Err(e) => Err(e),
            Ok(s2) => spec_parse_loop(b, s2),
        }
    }
}

#[via_fn]
proof fn spec_parse_loop_decreases(b: Seq<u8>, s: ParseState) {
    if 0 <= s.pos && s.pos + 2 <= b.len() {
        if spec_parse_step(b, s) is Ok {
            lemma_parse_step_bounds(b, s);
        }
    }
}

/// The whole decode as a function of the bytes: run the dispatch loop
/// from the initial state and rebuild the element the root record
/// describes.
pub open spec fn spec_parse_document(b: Seq<u8>, start: int) -> Result<ElemModel, FormatError> {
    match spec_parse_loop(b, init_state(start)) {
        Err(e) => Err(e),
        Ok(nodes) => Ok(spec_build(nodes, 0)),
    }
}

/// Decoding is a function of the bytes alone: equal buffers decoded
/// from equal positions yield equal outcomes, so decoding the same
/// byte buffer twice yields structurally equal trees.
pub proof fn lemma_decode_deterministic(b1: Seq<u8>, b2: Seq<u8>, start1: int, start2: int)
    requires
        b1 == b2,
        start1 == start2,
    ensures
        spec_parse_document(b1, start1) == spec_parse_document(b2, start2),
{
}

/// Copy a list of string pairs.
fn clone_pairs(v: &Vec<(String, String)>) -> (r: Vec<(String, String)>)
    ensures
        r@ == v@,
{
    let mut r: Vec<(String, String)> = Vec::new();
    let mut i: usize = 0;
    while i < v.len()
        invariant
            i <= v@.len(),
            r@ =~= v@.take(i as int),
        decreases v@.len() - i,
    {
        r.push((v[i].0.clone(), v[i].1.clone()));
        proof {
            assert(r@ =~= v@.take(i + 1));
        }
        i = i + 1;
    }
    proof {
        assert(v@.take(v@.len() as int) =~= v@);
    }
    r
}

/// Rebuild the element the arena describes at index `i`, copying the
/// strings out and recursing into the children.
#[verifier::loop_isolation(false)]
fn build_element(nodes: &Vec<ArenaNode>, i: usize) -> (e: XmlElement)
    requires
        wf_arena(arena_model(nodes@)),
        i < nodes@.len(),
    ensures
        elem_model(e) == spec_build(arena_model(nodes@), i as int),
    decreases nodes@.len() - i,
{
    let ghost m = arena_model(nodes@);
    let element_type: String = nodes[i].element_type.clone();
    let attributes: Vec<(String, String)> = clone_pairs(&nodes[i].attributes);
    let mut children: Vec<XmlElement> = Vec::new();
    let n: usize = nodes[i].children.len();
    proof {
        assert(m[i as int] == node_model(nodes@[i as int]));
        assert(m[i as int].children.take(0) =~= Seq::<int>::empty());
    }
    let mut j: usize = 0;
    while j < n
        invariant
            j <= n,
            n == m[i as int].children.len(),
            elem_models(children@) == spec_build_list(m, i as int, m[i as int].children.take(
                j as int,
            )),
        decreases n - j,
    {
        let c: usize = nodes[i].children[j];
        proof {
            assert(m[i as int].children[j as int] == c as int);
            assert(i < c < nodes@.len());
        }
        let child: XmlElement = build_element(nodes, c);
        let ghost prev = children@;
        children.push(child);
        proof {
            assert(children@.drop_last() =~= prev);
            assert(elem_models(children@) == elem_models(prev).push(elem_model(child)));
            assert(m[i as int].children.take(j + 1).drop_last() =~= m[i as int].children.take(
                j as int,
            ));
            assert(m[i as int].children.take(j + 1).last() == c as int);
        }
        j = j + 1;
    }
    let e = XmlElement { element_type, attributes, children };
    proof {
        assert(m[i as int].children.take(n as int) =~= m[i as int].children);
        assert(pair_views(e.attributes@) =~= m[i as int].attributes);
        assert(elem_model(e) =~~= spec_build(m, i as int));
    }
    e
}

/// The model of the builder's concrete state.
pub open spec fn loop_state(
    pos: int,
    strings: Seq<String>,
    ns: Seq<(String, String)>,
    nodes: Seq<ArenaNode>,
    stack: Seq<usize>,
) -> ParseState {
    ParseState {
        pos,
        strings: crate::string_pool::string_views(strings),
        namespaces: pairs_to_map(pair_views(ns)),
        nodes: arena_model(nodes),
        stack: stack.map_values(|u: usize| u as int),
    }
}

/// Apply one decoded start-element to the arena and the stack: a
/// `manifest` element arriving while the stack holds exactly the
/// synthetic root merges its attributes into the root; any other
/// element becomes a child record of the open element and is pushed,
/// and with nothing open at all the stream is unbalanced.
#[verifier::rlimit(60)]
fn apply_start_element(
    nodes: &mut Vec<ArenaNode>,
    stack: &mut Vec<usize>,
    element: XmlElement,
) -> (r: Result<(), FormatError>)
    requires
        old(nodes)@.len() >= 1,
        forall|q: int| 0 <= q < old(stack)@.len() ==> (#[trigger] old(stack)@[q]) < old(
            nodes,
        )@.len(),
        wf_arena(arena_model(old(nodes)@)),
    ensures
        final(nodes)@.len() >= 1,
        forall|q: int|
            0 <= q < final(stack)@.len() ==> (#[trigger] final(stack)@[q]) < final(nodes)@.len(),
        wf_arena(arena_model(final(nodes)@)),
        ({
            let ty = element.element_type@;
            let ps = pair_views(element.attributes@);
            let s_nodes = arena_model(old(nodes)@);
            let s_stack = old(stack)@.map_values(|u: usize| u as int);
            if ty == "manifest"@ && s_stack == seq![0int] {
                &&& r is Ok
                &&& arena_model(final(nodes)@) == s_nodes.update(
                    0,
                    NodeModel {
                        element_type: s_nodes[0].element_type,
                        attributes: s_nodes[0].attributes + ps,
                        children: s_nodes[0].children,
                    },
                )
                &&& final(stack)@ == old(stack)@
            } else if s_stack.len() == 0 {
                &&& r == Err::<(), FormatError>(FormatError::UnbalancedElement)
                &&& final(nodes)@ == old(nodes)@
                &&& final(stack)@ == old(stack)@
            } else {
                let parent = s_stack.last();
                let idx = s_nodes.len() as int;
                let pn = s_nodes[parent];
                &&& r is Ok
                &&& arena_model(final(nodes)@) == s_nodes.update(
                    parent,
                    NodeModel { children: pn.children.push(idx), ..pn },
                ).push(NodeModel { element_type: ty, attributes: ps, children: seq![] })
                &&& final(stack)@.map_values(|u: usize| u as int) == s_stack.push(idx)
            }
        }),
{
    let ghost s_nodes = arena_model(nodes@);
    let ghost s_stack = stack@.map_values(|u: usize| u as int);
    let ghost ty = element.element_type@;
    let ghost ps = pair_views(element.attributes@);

    let manifest_str: String = String::from_str("manifest");
    let is_manifest: bool = element.element_type == manifest_str;
    if is_manifest && stack.len() == 1 && stack[0] == 0 {
        proof {
            assert(s_stack =~= seq![0int]);
        }
        let XmlElement { element_type: _, attributes: mut el_attrs, children: _ } = element;
        let mut root_node: ArenaNode = nodes.remove(0);
        root_node.attributes.append(&mut el_attrs);
        nodes.insert(0, root_node);
        proof {
            let updated = NodeModel {
                element_type: s_nodes[0].element_type,
                attributes: s_nodes[0].attributes + ps,
                children: s_nodes[0].children,
            };
            assert(nodes@ =~= old(nodes)@.update(0, nodes@[0]));
            assert(pair_views(nodes@[0].attributes@) =~= s_nodes[0].attributes + ps);
            assert(node_model(nodes@[0]) =~~= updated);
            assert(arena_model(nodes@) =~= s_nodes.update(0, updated));
            assert(wf_arena(arena_model(nodes@))) by {
                let nm = arena_model(nodes@);
                assert forall|x: int, y: int|
                    0 <= x < nm.len() && 0 <= y < nm[x].children.len() implies x < #[trigger] nm[x].children[y] < nm.len() by {
                    assert(nm[x].children == s_nodes[x].children);
                }
            }
        }
        Ok(())
    } else {
        proof {
            if !(is_manifest && stack@.len() == 1 && stack@[0] == 0) {
                if is_manifest && stack@.len() == 1 {
                    assert(s_stack[0] == stack@[0] as int);
                    assert(s_stack != seq![0int]);
                } else if stack@.len() != 1 {
                    assert(s_stack.len() != 1);
                    assert(s_stack != seq![0int]);
                }
            }
        }
        if stack.len() == 0 {
            return Err(FormatError::UnbalancedElement);
        }
        let parent: usize = stack[stack.len() - 1];
        let idx: usize = nodes.len();
        let mut parent_node: ArenaNode = nodes.remove(parent);
        parent_node.children.push(idx);
        nodes.insert(parent, parent_node);
        nodes.push(
            ArenaNode {
                element_type: element.element_type,
                attributes: element.attributes,
                children: Vec::new(),
            },
        );
        stack.push(idx);
        proof {
            assert(s_stack.last() == parent as int);
            let pn = s_nodes[parent as int];
            let updated = NodeModel {
                element_type: pn.element_type,
                attributes: pn.attributes,
                children: pn.children.push(idx as int),
            };
            let fresh = NodeModel { element_type: ty, attributes: ps, children: seq![] };
            assert(nodes@[parent as int].children@.map_values(|c: usize| c as int) =~= pn.children.push(
                idx as int,
            ));
            assert(node_model(nodes@[parent as int]) =~~= updated);
            assert(pair_views(nodes@[idx as int].attributes@) =~= ps);
            assert(nodes@[idx as int].children@.map_values(|c: usize| c as int) =~= Seq::<
                int,
            >::empty());
            assert(node_model(nodes@[idx as int]) =~~= fresh);
            assert(arena_model(nodes@) =~= s_nodes.update(parent as int, updated).push(fresh));
            assert(stack@.map_values(|u: usize| u as int) =~= s_stack.push(idx as int));
            assert(NodeModel { children: pn.children.push(idx as int), ..pn } =~~= updated);
            assert(wf_arena(arena_model(nodes@))) by {
                let nm = arena_model(nodes@);
                assert forall|x: int, y: int|
                    0 <= x < nm.len() && 0 <= y < nm[x].children.len() implies x < #[trigger] nm[x].children[y] < nm.len() by {
                    if x == parent as int {
                        if y < pn.children.len() {
                            assert(nm[x].children[y] == pn.children[y]);
                        } else {
                            assert(nm[x].children[y] == idx as int);
                        }
                    } else if x < s_nodes.len() {
                        assert(nm[x] == s_nodes[x]);
                    } else {
                        assert(nm[x] == fresh);
                    }
                }
            }
        }
        Ok(())
    }
}

/// Parse a whole document: run the dispatch loop over the chunk stream
/// and return the root element.  Exact with respect to
/// [`spec_parse_document`]: the returned tree is the one the bytes
/// describe, and every malformed stream fails with the specific error
/// the specification assigns to it.
#[verifier::loop_isolation(false)]
#[verifier::rlimit(100)]
pub fn parse_xml(axml_cursor: AxmlCursor) -> (r: Result<XmlElement, FormatError>)
    ensures
        match spec_parse_document(axml_cursor.data@, axml_cursor.pos as int) {
            Ok(m) => r matches Ok(root) && root@ == m,
            Err(e) => r == Err::<XmlElement, FormatError>(e),
        },
{
    let mut buff = axml_cursor;
    let ghost b = buff.data@;
    let ghost start = buff.pos as int;
    let buff_len: usize = buff.data.len();

    let mut global_strings: Vec<String> = Vec::new();
    let mut namespace_prefixes: Vec<(String, String)> = Vec::new();
    let mut nodes: Vec<ArenaNode> = Vec::new();
    nodes.push(
        ArenaNode {
            element_type: String::from_str("manifest"),
            attributes: Vec::new(),
            children: Vec::new(),
        },
    );
    let mut stack: Vec<usize> = Vec::new();
    stack.push(0);

    proof {
        assert(loop_state(start, global_strings@, namespace_prefixes@, nodes@, stack@) =~~= init_state(
            start,
        )) by {
            assert(crate::string_pool::string_views(global_strings@) =~= Seq::<Seq<char>>::empty());
            assert(pair_views(namespace_prefixes@) =~= Seq::<(Seq<char>, Seq<char>)>::empty());
            assert(pair_views(nodes@[0].attributes@) =~= Seq::<(Seq<char>, Seq<char>)>::empty());
            assert(nodes@[0].children@.map_values(|c: usize| c as int) =~= Seq::<int>::empty());
            assert(node_model(nodes@[0]) =~~= NodeModel {
                element_type: "manifest"@,
                attributes: seq![],
                children: seq![],
            });
            assert(arena_model(nodes@) =~= seq![node_model(nodes@[0])]);
            assert(stack@.map_values(|u: usize| u as int) =~= seq![0int]);
        }
    }
    let ghost goal = spec_parse_loop(b, init_state(start));

    while buff.remaining() >= 2
        invariant
            buff.data@ == b,
            b.len() == buff_len,
            nodes@.len() >= 1,
            forall|q: int| 0 <= q < stack@.len() ==> (#[trigger] stack@[q]) < nodes@.len(),
            wf_arena(arena_model(nodes@)),
            spec_parse_loop(
                b,
                loop_state(buff.pos as int, global_strings@, namespace_prefixes@, nodes@, stack@),
            ) == goal,
        decreases buff_len - buff.pos,
    {
        let ghost s0 = loop_state(
            buff.pos as int,
            global_strings@,
            namespace_prefixes@,
            nodes@,
            stack@,
        );
        let tp: usize = buff.position();
        let ghost tag_pos = tp as int;
        let block_type: ChunkType = match ChunkType::parse_block_type(&mut buff) {
            Ok(t) => t,
            Err(e) => {
                proof {
                    assert(spec_parse_step(b, s0) == Err::<ParseState, FormatError>(e));
                }
                return Err(e);
            },
        };
        match block_type {
            ChunkType::ResNullType => {
                proof {
                    assert(spec_parse_step(b, s0) == Ok::<ParseState, FormatError>(
                        ParseState { pos: tag_pos + 2, ..s0 },
                    ));
                    assert(loop_state(
                        buff.pos as int,
                        global_strings@,
                        namespace_prefixes@,
                        nodes@,
                        stack@,
                    ) =~~= ParseState { pos: tag_pos + 2, ..s0 });
                }
            },
            ChunkType::ResStringPoolType => {
                match StringPool::from_buff(&mut buff, &mut global_strings) {
                    Ok(_string_pool) => {
                        proof {
                            lemma_parse_step_bounds(b, s0);
                            let sp = (crate::string_pool::spec_string_pool(b, tag_pos)->Ok_0).0;
                            let p = (crate::string_pool::spec_string_pool(b, tag_pos)->Ok_0).1;
                            assert(spec_parse_step(b, s0) == Ok::<ParseState, FormatError>(
                                ParseState { pos: p, strings: s0.strings + sp.appended, ..s0 },
                            ));
                            assert(loop_state(
                                buff.pos as int,
                                global_strings@,
                                namespace_prefixes@,
                                nodes@,
                                stack@,
                            ) =~~= ParseState { pos: p, strings: s0.strings + sp.appended, ..s0 });
                        }
                    },
                    Err(e) => {
                        proof {
                            assert(spec_parse_step(b, s0) == Err::<ParseState, FormatError>(e));
                        }
                        return Err(e);
                    },
                }
            },
            ChunkType::ResTableType => {
                buff.set_position(tp);
                let header: ChunkHeader = match ChunkHeader::from_buff(
                    &mut buff,
                    ChunkType::ResTableType,
                ) {
                    Ok(h) => h,
                    Err(e) => {
                        proof {
                            assert(spec_parse_step(b, s0) == Err::<ParseState, FormatError>(e));
                        }
                        return Err(e);
                    },
                };
                let skip_to: usize = match tp.checked_add(header.chunk_size as usize) {
                    Some(p) => p,
                    None => {
                        proof {
                            assert(spec_parse_step(b, s0) == Err::<ParseState, FormatError>(
                                FormatError::TruncatedInput,
                            ));
                        }
                        return Err(FormatError::TruncatedInput);
                    },
                };
                if skip_to > buff_len {
                    proof {
                        assert(spec_parse_step(b, s0) == Err::<ParseState, FormatError>(
                            FormatError::TruncatedInput,
                        ));
                    }
                    return Err(FormatError::TruncatedInput);
                }
                buff.set_position(skip_to);
                proof {
                    assert(spec_parse_step(b, s0) == Ok::<ParseState, FormatError>(
                        ParseState { pos: tag_pos + header.chunk_size, ..s0 },
                    ));
                    assert(loop_state(
                        buff.pos as int,
                        global_strings@,
                        namespace_prefixes@,
                        nodes@,
                        stack@,
                    ) =~~= ParseState { pos: tag_pos + header.chunk_size, ..s0 });
                }
            },
            ChunkType::ResXmlType => {
                buff.set_position(tp);
                let _header: ChunkHeader = match ChunkHeader::from_buff(
                    &mut buff,
                    ChunkType::ResXmlType,
                ) {
                    Ok(h) => h,
                    Err(e) => {
                        proof {
                            assert(spec_parse_step(b, s0) == Err::<ParseState, FormatError>(e));
                        }
                        return Err(e);
                    },
                };
                proof {
                    assert(spec_parse_step(b, s0) == Ok::<ParseState, FormatError>(
                        ParseState { pos: tag_pos + 8, ..s0 },
                    ));
                    assert(loop_state(
                        buff.pos as int,
                        global_strings@,
                        namespace_prefixes@,
                        nodes@,
                        stack@,
                    ) =~~= ParseState { pos: tag_pos + 8, ..s0 });
                }
            },
            ChunkType::ResXmlStartNamespaceType => {
                match parse_start_namespace(&mut buff, &global_strings, &mut namespace_prefixes) {
                    Ok(_u) => {
                        proof {
                            let m = (spec_start_namespace(
                                b,
                                tag_pos,
                                s0.strings,
                                s0.namespaces,
                            )->Ok_0).0;
                            let p = (spec_start_namespace(
                                b,
                                tag_pos,
                                s0.strings,
                                s0.namespaces,
                            )->Ok_0).1;
                            assert(spec_parse_step(b, s0) == Ok::<ParseState, FormatError>(
                                ParseState { pos: p, namespaces: m, ..s0 },
                            ));
                            assert(loop_state(
                                buff.pos as int,
                                global_strings@,
                                namespace_prefixes@,
                                nodes@,
                                stack@,
                            ) =~~= ParseState { pos: p, namespaces: m, ..s0 });
                        }
                    },
                    Err(e) => {
                        proof {
                            assert(spec_parse_step(b, s0) == Err::<ParseState, FormatError>(e));
                        }
                        return Err(e);
                    },
                }
            },
            ChunkType::ResXmlEndNamespaceType => {
                match parse_end_namespace(&mut buff, &global_strings) {
                    Ok(_u) => {
                        proof {
                            assert(spec_parse_step(b, s0) == Ok::<ParseState, FormatError>(
                                ParseState { pos: tag_pos + 24, ..s0 },
                            ));
                            assert(loop_state(
                                buff.pos as int,
                                global_strings@,
                                namespace_prefixes@,
                                nodes@,
                                stack@,
                            ) =~~= ParseState { pos: tag_pos + 24, ..s0 });
                        }
                    },
                    Err(e) => {
                        proof {
                            assert(spec_parse_step(b, s0) == Err::<ParseState, FormatError>(e));
                        }
                        return Err(e);
                    },
                }
            },
            ChunkType::ResXmlStartElementType => {
                let element: XmlElement = match parse_start_element(
                    &mut buff,
                    &global_strings,
                    &namespace_prefixes,
                ) {
                    Ok(e) => e,
                    Err(e) => {
                        proof {
                            assert(spec_parse_step(b, s0) == Err::<ParseState, FormatError>(e));
                        }
                        return Err(e);
                    },
                };
                proof {
                    lemma_start_element_bounds(b, tag_pos, s0.strings, s0.namespaces);
                }
                let ghost ty = (spec_start_element(b, tag_pos, s0.strings, s0.namespaces)->Ok_0).0.0;
                let ghost ps = (spec_start_element(b, tag_pos, s0.strings, s0.namespaces)->Ok_0).0.1;
                let ghost p = (spec_start_element(b, tag_pos, s0.strings, s0.namespaces)->Ok_0).1;
                match apply_start_element(&mut nodes, &mut stack, element) {
                    Ok(_u) => {
                        proof {
                            if ty == "manifest"@ && s0.stack == seq![0int] {
                                let updated = NodeModel {
                                    element_type: s0.nodes[0].element_type,
                                    attributes: s0.nodes[0].attributes + ps,
                                    children: s0.nodes[0].children,
                                };
                                assert(spec_parse_step(b, s0) == Ok::<ParseState, FormatError>(
                                    ParseState { pos: p, nodes: s0.nodes.update(0, updated), ..s0 },
                                ));
                                assert(loop_state(
                                    buff.pos as int,
                                    global_strings@,
                                    namespace_prefixes@,
                                    nodes@,
                                    stack@,
                                ) =~~= ParseState {
                                    pos: p,
                                    nodes: s0.nodes.update(0, updated),
                                    ..s0
                                });
                            } else {
                                let parent = s0.stack.last();
                                let idx = s0.nodes.len() as int;
                                let pn = s0.nodes[parent];
                                let updated = NodeModel {
                                    element_type: pn.element_type,
                                    attributes: pn.attributes,
                                    children: pn.children.push(idx),
                                };
                                let fresh = NodeModel {
                                    element_type: ty,
                                    attributes: ps,
                                    children: seq![],
                                };
                                assert(NodeModel { children: pn.children.push(idx), ..pn } =~~= updated);
                                assert(spec_parse_step(b, s0) == Ok::<ParseState, FormatError>(
                                    ParseState {
                                        pos: p,
                                        nodes: s0.nodes.update(parent, updated).push(fresh),
                                        stack: s0.stack.push(idx),
                                        ..s0
                                    },
                                ));
                                assert(loop_state(
                                    buff.pos as int,
                                    global_strings@,
                                    namespace_prefixes@,
                                    nodes@,
                                    stack@,
                                ) =~~= ParseState {
                                    pos: p,
                                    nodes: s0.nodes.update(parent, updated).push(fresh),
                                    stack: s0.stack.push(idx),
                                    ..s0
                                });
                            }
                        }
                    },
                    Err(e) => {
                        proof {
                            assert(spec_parse_step(b, s0) == Err::<ParseState, FormatError>(e));
                        }
                        return Err(e);
                    },
                }
            },
            ChunkType::ResXmlEndElementType => {
                match parse_end_element(&mut buff, &global_strings) {
                    Ok(_elem_name) => {},
                    Err(e) => {
                        proof {
                            assert(spec_parse_step(b, s0) == Err::<ParseState, FormatError>(e));
                        }
                        return Err(e);
                    },
                }
                if stack.len() == 0 {
                    proof {
                        assert(spec_parse_step(b, s0) == Err::<ParseState, FormatError>(
                            FormatError::UnbalancedElement,
                        ));
                    }
                    return Err(FormatError::UnbalancedElement);
                }
                let _popped: Option<usize> = stack.pop();
                proof {
                    let p = (spec_end_element(b, tag_pos, s0.strings)->Ok_0).1;
                    assert(stack@.map_values(|u: usize| u as int) =~= s0.stack.drop_last());
                    assert(spec_parse_step(b, s0) == Ok::<ParseState, FormatError>(
                        ParseState { pos: p, stack: s0.stack.drop_last(), ..s0 },
                    ));
                    assert(loop_state(
                        buff.pos as int,
                        global_strings@,
                        namespace_prefixes@,
                        nodes@,
                        stack@,
                    ) =~~= ParseState { pos: p, stack: s0.stack.drop_last(), ..s0 });
                }
            },
            ChunkType::ResXmlResourceMapType => {
                match ResourceMap::from_buff(&mut buff) {
                    Ok(_resource_map) => {
                        proof {
                            let p = (crate::resource_map::spec_resource_map(b, tag_pos)->Ok_0).2;
                            assert(spec_parse_step(b, s0) == Ok::<ParseState, FormatError>(
                                ParseState { pos: p, ..s0 },
                            ));
                            assert(loop_state(
                                buff.pos as int,
                                global_strings@,
                                namespace_prefixes@,
                                nodes@,
                                stack@,
                            ) =~~= ParseState { pos: p, ..s0 });
                        }
                    },
                    Err(e) => {
                        proof {
                            assert(spec_parse_step(b, s0) == Err::<ParseState, FormatError>(e));
                        }
                        return Err(e);
                    },
                }
            },
            _ => {
                proof {
                    assert(spec_parse_step(b, s0) == Ok::<ParseState, FormatError>(
                        ParseState { pos: tag_pos + 2, ..s0 },
                    ));
                    assert(loop_state(
                        buff.pos as int,
                        global_strings@,
                        namespace_prefixes@,
                        nodes@,
                        stack@,
                    ) =~~= ParseState { pos: tag_pos + 2, ..s0 });
                }
            },
        }
        proof {
            lemma_parse_step_bounds(b, s0);
        }
    }

    proof {
        let s_end = loop_state(
            buff.pos as int,
            global_strings@,
            namespace_prefixes@,
            nodes@,
            stack@,
        );
        assert(spec_parse_loop(b, s_end) == Ok::<Seq<NodeModel>, FormatError>(arena_model(nodes@)));
    }
    let root: XmlElement = build_element(&nodes, 0);
    Ok(root)
}

} // verus!
