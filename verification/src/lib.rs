//! Decoder for Android's binary XML format (AXML).
//!
//! An AXML document is a flat sequence of self-describing chunks: a
//! string pool, namespace declarations, element start/end markers and
//! resource maps.  The library decodes such a byte stream into a nested
//! [`XmlElement`](parser::XmlElement) tree and offers read-only queries
//! over the result.  Every decode function carries a contract that pins
//! its result, and the whole pipeline is specified as a function of the
//! input bytes.

pub mod chunk_header;
pub mod chunk_types;
pub mod cursor;
pub mod error;
pub mod parser;
pub mod res_value;
pub mod resource_map;
pub mod resource_names;
pub mod string_pool;
pub mod text;

use vstd::prelude::*;

use crate::cursor::AxmlCursor;
use crate::error::FormatError;
use crate::parser::{
    elem_model, elem_models, lemma_elem_models_index, parse_xml, spec_parse_document, ElemModel,
    XmlElement,
};

verus! {

use vstd::string::StringExecFns;

/// Representation of an app's manifest contents.
#[derive(Debug, Default)]
pub struct ManifestContents {
    pub pkg_name: String,
    pub activities: Vec<String>,
    pub services: Vec<String>,
    pub providers: Vec<String>,
    pub receivers: Vec<String>,
    pub created_perms: Vec<String>,
    pub requested_perms: Vec<String>,
    pub main_entry_point: Option<String>,
}

/// A component can be exported or enabled.  Each of these features has
/// a default value, but the default can be overridden by the developer,
/// so each one is in one of four states, or not yet known.
#[derive(Debug, PartialEq, Eq, Structural)]
pub enum ComponentState {
    Unknown,
    DefaultTrue,
    DefaultFalse,
    ExplicitTrue,
    ExplicitFalse,
}

/// The exposed components of a manifest, one list per component kind.
#[derive(Debug)]
pub struct ExposedComponents {
    pub activities: Vec<XmlElement>,
    pub services: Vec<XmlElement>,
    pub providers: Vec<XmlElement>,
    pub receivers: Vec<XmlElement>,
}

/// Decode a whole document into its root element.  Exact with respect
/// to [`spec_parse_document`].
pub fn get_manifest_contents(axml_cursor: AxmlCursor) -> (r: Result<XmlElement, FormatError>)
    ensures
        match spec_parse_document(axml_cursor.data@, axml_cursor.pos as int) {
            Ok(m) => r matches Ok(root) && root@ == m,
            Err(e) => r == Err::<XmlElement, FormatError>(e),
        },
{
    parse_xml(axml_cursor)
}

/// The elements of the given type in the order the stack-based search
/// visits them: the element itself first, then the subtrees of its
/// children, last child first.
pub open spec fn spec_collect(t: ElemModel, ty: Seq<char>) -> Seq<ElemModel>
    decreases t,
{
    (if t.element_type == ty {
        seq![t]
    } else {
        seq![]
    }) + spec_collect_list(t.children, ty)
}

/// The elements of the given type found under `cs`, visiting the last
/// child's subtree first.
pub open spec fn spec_collect_list(cs: Seq<ElemModel>, ty: Seq<char>) -> Seq<ElemModel>
    decreases cs,
{
    if cs.len() == 0 {
        seq![]
    } else {
        spec_collect(cs.last(), ty) + spec_collect_list(cs.drop_last(), ty)
    }
}

/// Search the subtree at `e` and append a copy of every element of the
/// search type, in visit order.
fn collect_by_type(e: &XmlElement, key: &String, out: &mut Vec<XmlElement>)
    ensures
        elem_models(final(out)@) == elem_models(old(out)@) + spec_collect(e@, key@),
    decreases *e,
{
    let ghost base = elem_models(old(out)@);
    if e.element_type == *key {
        let ghost prev = out@;
        out.push(e.deep_copy());
        proof {
            assert(out@.drop_last() =~= prev);
            assert(elem_models(out@) =~= base.push(elem_model(*e)));
            assert(base.push(elem_model(*e)) =~= base + seq![elem_model(*e)]);
        }
    } else {
        proof {
            assert(base + seq![] =~= base);
        }
    }
    let ghost hits: Seq<ElemModel> = if e.element_type@ == key@ {
        seq![elem_model(*e)]
    } else {
        seq![]
    };
    let mut i: usize = e.children.len();
    proof {
        crate::parser::lemma_elem_models_len(e.children@);
        assert(e@.children.take(e.children@.len() as int) =~= e@.children);
        assert(elem_models(out@) + spec_collect_list(e@.children.take(i as int), key@) =~= base
            + hits + spec_collect_list(e@.children, key@));
    }
    while i > 0
        invariant
            i <= e.children@.len(),
            e@.children.len() == e.children@.len(),
            elem_models(out@) + spec_collect_list(e@.children.take(i as int), key@) == base + hits
                + spec_collect_list(e@.children, key@),
        decreases i,
    {
        i = i - 1;
        let ghost before = elem_models(out@);
        proof {
            lemma_elem_models_index(e.children@, i as int);
            assert(e@.children.take(i + 1).drop_last() =~= e@.children.take(i as int));
            assert(e@.children.take(i + 1).last() == e@.children[i as int]);
        }
        collect_by_type(&e.children[i], key, out);
        proof {
            assert((before + spec_collect(e@.children[i as int], key@)) + spec_collect_list(
                e@.children.take(i as int),
                key@,
            ) =~= before + spec_collect_list(e@.children.take(i + 1), key@));
        }
    }
    proof {
        assert(e@.children.take(0) =~= Seq::<ElemModel>::empty());
        assert(elem_models(out@) + Seq::<ElemModel>::empty() =~= elem_models(out@));
        assert(base + hits + spec_collect_list(e@.children, key@) =~= base + spec_collect(
            e@,
            key@,
        ));
    }
}

/// Use stack-based tree traversal to get all elements of a given type:
/// the search visits an element before its children and the children
/// last-first, and hands back copies in visit order.
pub fn find_elements_by_type(parsed_xml: &XmlElement, element_type: &str) -> (r: Vec<XmlElement>)
    ensures
        elem_models(r@) == spec_collect(parsed_xml@, element_type@),
{
    let key: String = String::from_str(element_type);
    let mut result: Vec<XmlElement> = Vec::new();
    proof {
        assert(elem_models(result@) =~= Seq::<ElemModel>::empty());
    }
    collect_by_type(parsed_xml, &key, &mut result);
    proof {
        assert(Seq::<ElemModel>::empty() + spec_collect(parsed_xml@, key@) =~= spec_collect(
            parsed_xml@,
            key@,
        ));
    }
    result
}

/// A component is exposed when it is enabled and exported.  An explicit
/// `android:enabled="false"` or `android:exported="false"` hides it;
/// any other explicit `android:exported` exposes it; without an
/// explicit value, the component is exported by default exactly when it
/// declares an intent filter.
pub open spec fn spec_is_exposed(m: ElemModel) -> bool {
    if m.attributes.contains_key("android:enabled"@) && m.attributes["android:enabled"@]
        == "false"@ {
        false
    } else if m.attributes.contains_key("android:exported"@) {
        m.attributes["android:exported"@] != "false"@
    } else {
        exists|i: int|
            0 <= i < m.children.len() && (#[trigger] m.children[i]).element_type
                == "intent-filter"@
    }
}

/// Check whether a component is exposed, which is the case when it is
/// both enabled and exported.  Both properties can be set explicitly in
/// the component's declaration or left to their defaults; the default
/// for exported depends on whether the component declares an intent
/// filter.  Exact with respect to [`spec_is_exposed`].
pub fn is_component_exposed(component: &XmlElement) -> (r: bool)
    ensures
        r == spec_is_exposed(component@),
{
    let mut _enabled_state: ComponentState = ComponentState::DefaultTrue;
    let mut exported_state: ComponentState = ComponentState::Unknown;

    let enabled_key: String = String::from_str("android:enabled");
    let false_str: String = String::from_str("false");
    if let Some(enabled) = component.get_attribute(&enabled_key) {
        if enabled == false_str {
            return false;
        } else {
            _enabled_state = ComponentState::ExplicitTrue;
        }
    }

    let exported_key: String = String::from_str("android:exported");
    if let Some(exported) = component.get_attribute(&exported_key) {
        if exported == false_str {
            return false;
        } else {
            exported_state = ComponentState::ExplicitTrue;
        }
    }

    // Without an explicit value, the component is exported by default
    // exactly when it declares an intent filter; content providers
    // usually carry explicit values anyway.
    if exported_state == ComponentState::Unknown {
        let filter_str: String = String::from_str("intent-filter");
        let n: usize = component.children.len();
        let mut found: bool = false;
        let mut i: usize = 0;
        proof {
            crate::parser::lemma_elem_models_len(component.children@);
        }
        while i < n && !found
            invariant
                i <= n,
                n == component.children@.len(),
                filter_str@ == "intent-filter"@,
                found ==> exists|k: int|
                    0 <= k < component@.children.len() && (#[trigger] component@.children[k]).element_type
                        == "intent-filter"@,
                !found ==> forall|j: int|
                    0 <= j < i ==> (#[trigger] component@.children[j]).element_type
                        != "intent-filter"@,
            decreases n - i, (if found {
                0int
            } else {
                1int
            }),
        {
            proof {
                lemma_elem_models_index(component.children@, i as int);
            }
            if component.children[i].element_type == filter_str {
                found = true;
                proof {
                    assert(component@.children[i as int].element_type == "intent-filter"@);
                }
            } else {
                i = i + 1;
            }
        }
        if found {
            exported_state = ComponentState::DefaultTrue;
        } else {
            exported_state = ComponentState::DefaultFalse;
            proof {
                assert(!(exists|k: int|
                    0 <= k < component@.children.len() && (#[trigger] component@.children[k]).element_type
                        == "intent-filter"@));
            }
        }
    }

    // At this point the component is enabled, so the answer is whether
    // it is exported; an explicitly hidden component returned early.
    match exported_state {
        ComponentState::DefaultFalse => false,
        ComponentState::DefaultTrue => true,
        ComponentState::ExplicitTrue => true,
        _ => false,
    }
}

/// The elements of a sequence that are exposed, keeping their order.
pub open spec fn spec_filter_exposed(s: Seq<ElemModel>) -> Seq<ElemModel>
    decreases s.len(),
{
    if s.len() == 0 {
        seq![]
    } else if spec_is_exposed(s.last()) {
        spec_filter_exposed(s.drop_last()).push(s.last())
    } else {
        spec_filter_exposed(s.drop_last())
    }
}

/// The elements of the given type that are exposed, in visit order.
pub open spec fn spec_exposed_of_type(root: ElemModel, ty: Seq<char>) -> Seq<ElemModel> {
    spec_filter_exposed(spec_collect(root, ty))
}

/// No exposed components can be reported: the manifest declares no
/// `application` element, or the one the search finds last is
/// explicitly disabled.
pub open spec fn spec_application_blocked(root: ElemModel) -> bool {
    let apps = spec_collect(root, "application"@);
    apps.len() == 0 || {
        let app = apps.last();
        app.attributes.contains_key("android:enabled"@) && app.attributes["android:enabled"@]
            == "false"@
    }
}

/// Copy the elements that are exposed, keeping their order.
fn filter_exposed(v: Vec<XmlElement>) -> (r: Vec<XmlElement>)
    ensures
        elem_models(r@) == spec_filter_exposed(elem_models(v@)),
{
    let mut r: Vec<XmlElement> = Vec::new();
    let mut i: usize = 0;
    proof {
        assert(elem_models(r@) =~= Seq::<ElemModel>::empty());
        assert(elem_models(v@.take(0)) =~= Seq::<ElemModel>::empty());
    }
    while i < v.len()
        invariant
            i <= v@.len(),
            elem_models(r@) == spec_filter_exposed(elem_models(v@.take(i as int))),
        decreases v@.len() - i,
    {
        proof {
            lemma_elem_models_index(v@, i as int);
            lemma_elem_models_index(v@.take(i + 1), i as int);
            assert(v@.take(i + 1).drop_last() =~= v@.take(i as int));
            assert(elem_models(v@.take(i + 1)).drop_last() =~= elem_models(v@.take(i as int)));
            assert(elem_models(v@.take(i + 1)).last() == elem_model(v@[i as int]));
        }
        if is_component_exposed(&v[i]) {
            let ghost prev = r@;
            r.push(v[i].deep_copy());
            proof {
                assert(r@.drop_last() =~= prev);
                assert(elem_models(r@) == elem_models(prev).push(elem_model(v@[i as int])));
            }
        }
        i = i + 1;
    }
    proof {
        assert(v@.take(v@.len() as int) =~= v@);
    }
    r
}

/// Parse the decoded manifest tree into the list of exposed components
/// of each kind.  Nothing is reported when the manifest has no
/// `application` element or disables it outright; otherwise each list
/// holds exactly the exposed elements of its kind, in search order.
pub fn get_exposed_components(parsed_xml: &XmlElement) -> (r: Option<ExposedComponents>)
    ensures
        r is None <==> spec_application_blocked(parsed_xml@),
        r matches Some(c) ==> {
            &&& elem_models(c.activities@) == spec_exposed_of_type(parsed_xml@, "activity"@)
            &&& elem_models(c.services@) == spec_exposed_of_type(parsed_xml@, "service"@)
            &&& elem_models(c.providers@) == spec_exposed_of_type(parsed_xml@, "provider"@)
            &&& elem_models(c.receivers@) == spec_exposed_of_type(parsed_xml@, "receiver"@)
        },
{
    // Check whether the `<application>` tag disables everything.
    let mut apps: Vec<XmlElement> = find_elements_by_type(parsed_xml, "application");
    let ghost apps_before = apps@;
    proof {
        crate::parser::lemma_elem_models_len(apps_before);
    }
    let application: XmlElement = match apps.pop() {
        Some(a) => a,
        None => {
            return None;
        },
    };
    proof {
        lemma_elem_models_index(apps_before, apps_before.len() - 1);
        assert(application@ == spec_collect(parsed_xml@, "application"@).last());
    }
    let enabled_key: String = String::from_str("android:enabled");
    let false_str: String = String::from_str("false");
    if let Some(enabled) = application.get_attribute(&enabled_key) {
        if enabled == false_str {
            return None;
        }
    }

    let activities: Vec<XmlElement> = filter_exposed(find_elements_by_type(parsed_xml, "activity"));
    let services: Vec<XmlElement> = filter_exposed(find_elements_by_type(parsed_xml, "service"));
    let providers: Vec<XmlElement> = filter_exposed(find_elements_by_type(parsed_xml, "provider"));
    let receivers: Vec<XmlElement> = filter_exposed(find_elements_by_type(parsed_xml, "receiver"));

    Some(ExposedComponents { activities, services, providers, receivers })
}

} // verus!
