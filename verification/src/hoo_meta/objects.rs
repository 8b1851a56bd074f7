//! The registry that ties a native handle to its scripting-side proxy, and the
//! import and export of handles through it.
//!
//! The scripting runtime is not part of this module.  Its weak reference to a
//! proxy is a type parameter `W`; what it lets a caller read of a scripting
//! object arrives as a [`JsObjectReading`].

use crate::hoo_meta::text::{decimal, to_decimal};
use crate::hoo_meta::types::TryFromJsValueError;
use crate::hoo_object::{ObjectId, RcAny, RcObject};
use std::collections::HashMap;
use vstd::prelude::*;
use vstd::string::StringExecFns;

verus! {

broadcast use vstd::std_specs::hash::group_hash_axioms;

/// Which native object has a live proxy: for each identity the erased handle
/// that keeps the object alive and the weak reference to the proxy.
pub struct Registry<W> {
    entries: HashMap<usize, (RcAny, W)>,
}

impl<W> View for Registry<W> {
    type V = Map<usize, (RcAny, W)>;

    closed spec fn view(&self) -> Map<usize, (RcAny, W)> {
        self.entries@
    }
}

/// Every entry stands under the identity of its own handle.
pub open spec fn keyed_by_identity<W>(entries: Map<usize, (RcAny, W)>) -> bool {
    forall|key: usize| #[trigger] entries.contains_key(key) ==> entries[key].0.id()@ == key
}

/// The handle that stands under `id`, if any.
pub open spec fn lookup_object<W>(entries: Map<usize, (RcAny, W)>, id: ObjectId) -> Option<RcAny> {
    if entries.contains_key(id@) {
        Some(entries[id@].0)
    } else {
        None
    }
}

/// The weak proxy reference that stands under `id`, if any.
pub open spec fn lookup_proxy<W>(entries: Map<usize, (RcAny, W)>, id: ObjectId) -> Option<W> {
    if entries.contains_key(id@) {
        Some(entries[id@].1)
    } else {
        None
    }
}

impl<W> Registry<W> {
    /// The registry's invariant: its constructor establishes it and every
    /// operation keeps it.
    pub open spec fn wf(&self) -> bool {
        keyed_by_identity(self@)
    }

    /// A registry without entries.
    pub fn new() -> (registry: Self)
        ensures
            registry@ == Map::<usize, (RcAny, W)>::empty(),
            registry.wf(),
    {
        Registry { entries: HashMap::new() }
    }
}

/// Enters `rs_val` with its proxy reference under its own identity, in place
/// of whatever stood there.
pub fn register_object<W>(registry: &mut Registry<W>, rs_val: RcAny, js_val: W)
    requires
        old(registry).wf(),
    ensures
        final(registry).wf(),
        final(registry)@ == old(registry)@.insert(rs_val.id()@, (rs_val, js_val)),
{
    let key = rs_val.id().to_ptr();
    registry.entries.insert(key, (rs_val, js_val));
}

/// Another strong handle to the object registered under `id`, if there is one.
pub fn get_registered_rust_object<W>(registry: &Registry<W>, id: ObjectId) -> (found: Option<RcAny>)
    requires
        registry.wf(),
    ensures
        found == lookup_object(registry@, id),
        found matches Some(handle) ==> handle.id() == id,
{
    proof {
        ObjectId::lemma_view_injective(id, registry@[id@].0.id());
    }
    match registry.entries.get(&id.to_ptr()) {
        Some(entry) => Some(entry.0.clone()),
        None => None,
    }
}

/// The weak proxy reference registered under `id`, if there is one.
pub fn get_registered_js_object<W>(registry: &Registry<W>, id: ObjectId) -> (found: Option<&W>)
    ensures
        match found {
            Some(weak) => lookup_proxy(registry@, id) == Some(*weak),
            None => lookup_proxy(registry@, id) is None,
        },
{
    match registry.entries.get(&id.to_ptr()) {
        Some(entry) => Some(&entry.1),
        None => None,
    }
}

/// Removes the entry under `id`.  Where there is none, nothing changes.
pub fn unregister_object<W>(registry: &mut Registry<W>, id: ObjectId)
    requires
        old(registry).wf(),
    ensures
        final(registry).wf(),
        final(registry)@ == old(registry)@.remove(id@),
{
    registry.entries.remove(&id.to_ptr());
}

/// Registers the proxy that was just created for `rs_obj`.  `weak` is the weak
/// reference to that proxy; its finalizer is expected to call
/// [`unregister_object`] with the identity of `rs_obj`.  The result is the raw
/// identity, to be written into the proxy's reserved slot.
pub fn register_object_enabling_bigc<W>(registry: &mut Registry<W>, rs_obj: RcAny, weak: W) -> (slot:
    usize)
    requires
        old(registry).wf(),
    ensures
        final(registry).wf(),
        final(registry)@ == old(registry)@.insert(rs_obj.id()@, (rs_obj, weak)),
        slot == rs_obj.id()@,
{
    let id = rs_obj.id();
    register_object(registry, rs_obj, weak);
    id.to_ptr()
}

/// What one internal field of a scripting object holds.
#[derive(Debug, Clone, Copy, PartialEq, Eq, Structural)]
pub enum InternalField {
    /// An external value: a pointer-sized integer owned by the native side.
    External(usize),
    /// Any other scripting value.
    Other,
}

/// What the import of a handle reads from a scripting object: its internal
/// fields, in order.
#[derive(Debug, Clone)]
pub struct JsObjectReading {
    pub internal_fields: Vec<InternalField>,
}

/// `ObjectId { id: <raw> }`, the way an identity appears in a diagnostic.
pub open spec fn object_id_text(raw: usize) -> Seq<char> {
    "ObjectId { id: "@ + decimal(raw as nat) + " }"@
}

/// The external value in field `index`, or the reason there is none.
pub open spec fn external_internal_value(fields: Seq<InternalField>, index: usize) -> Result<
    usize,
    Seq<char>,
> {
    if index >= fields.len() {
        Err("no internal field "@ + decimal(index as nat))
    } else {
        match fields[index as int] {
            InternalField::External(value) => Ok(value),
            InternalField::Other => Err(
                "internal field "@ + decimal(index as nat) + " is not external"@,
            ),
        }
    }
}

/// The raw identity that a scripting value carries in its one reserved slot,
/// or the reason it carries none.
pub open spec fn identity_slot(val: Option<JsObjectReading>) -> Result<usize, Seq<char>> {
    match val {
        None => Err("not a object"@),
        Some(object) => if object.internal_fields@.len() != 1 {
            Err("internal_field_count != 1, got "@ + decimal(object.internal_fields@.len()))
        } else {
            external_internal_value(object.internal_fields@, 0)
        },
    }
}

/// The diagnostic for a slot value under which nothing is registered.
pub open spec fn no_object_message(raw: usize) -> Seq<char> {
    "no object with id "@ + object_id_text(raw)
}

/// The diagnostic for a registered object of another type than asked for.
pub open spec fn downcast_failed_message(raw: usize) -> Seq<char> {
    "downcast to RcObject<T> failed, obj_id: "@ + object_id_text(raw)
}

/// What importing a handle from `val` may give against the registry contents
/// `entries`.  Every failure is fixed by `val` and `entries`, except the last:
/// whether the registered object is a `T` is for the downcast to say.
pub open spec fn handle_import<T: 'static, W>(
    entries: Map<usize, (RcAny, W)>,
    val: Option<JsObjectReading>,
    r: Result<RcObject<T>, TryFromJsValueError>,
) -> bool {
    match identity_slot(val) {
        Err(msg) => r matches Err(e) && e@ == msg,
        Ok(slot) => if entries.contains_key(slot) {
            match r {
                Ok(obj) => obj.id() == entries[slot].0.id(),
                Err(e) => e@ == downcast_failed_message(slot),
            }
        } else {
            r matches Err(e) && e@ == no_object_message(slot)
        },
    }
}

fn render_object_id(id: ObjectId) -> (text: String)
    ensures
        text@ == object_id_text(id@),
{
    let mut text = String::from_str("ObjectId { id: ");
    text.append(to_decimal(id.to_ptr()).as_str());
    text.append(" }");
    text
}

/// Reads the external value out of internal field `index` of `object`.
pub fn get_external_internal_value_from_js_object(object: &JsObjectReading, index: usize) -> (r:
    Result<usize, TryFromJsValueError>)
    ensures
        match external_internal_value(object.internal_fields@, index) {
            Ok(value) => r matches Ok(v) && v == value,
            Err(msg) => r matches Err(e) && e@ == msg,
        },
{
    if index >= object.internal_fields.len() {
        let mut msg = String::from_str("no internal field ");
        msg.append(to_decimal(index).as_str());
        return Err(TryFromJsValueError::new(msg.as_str()));
    }
    match object.internal_fields[index] {
        InternalField::External(value) => Ok(value),
        InternalField::Other => {
            let mut msg = String::from_str("internal field ");
            msg.append(to_decimal(index).as_str());
            msg.append(" is not external");
            Err(TryFromJsValueError::new(msg.as_str()))
        },
    }
}

/// Settles an import once the registered handle has been tried against `T`:
/// the typed handle, or the diagnostic that names the identity.
pub fn downcast_or_error<T: 'static>(id: ObjectId, casted: Result<RcObject<T>, RcAny>) -> (r: Result<
    RcObject<T>,
    TryFromJsValueError,
>)
    ensures
        match casted {
            Ok(obj) => r == Ok::<RcObject<T>, TryFromJsValueError>(obj),
            Err(_) => r matches Err(e) && e@ == downcast_failed_message(id@),
        },
{
    match casted {
        Ok(obj) => Ok(obj),
        Err(_) => {
            let mut msg = String::from_str("downcast to RcObject<T> failed, obj_id: ");
            msg.append(render_object_id(id).as_str());
            Err(TryFromJsValueError::new(msg.as_str()))
        },
    }
}

impl<T: 'static> RcObject<T> {
    /// Imports a handle: `val` must be an object with exactly one internal
    /// field, that field must hold an external value, and the registry must
    /// hold an object of type `T` under that value.  The registry is only
    /// read.
    pub fn try_from_js_value<W>(registry: &Registry<W>, val: &Option<JsObjectReading>) -> (r: Result<
        Self,
        TryFromJsValueError,
    >)
        requires
            registry.wf(),
        ensures
            handle_import(registry@, *val, r),
            r matches Ok(obj) ==> identity_slot(*val) == Ok::<usize, Seq<char>>(obj.id()@),
    {
        let object = match val {
            Some(object) => object,
            None => {
                return Err(TryFromJsValueError::new("not a object"));
            },
        };
        let internal_field_count = object.internal_fields.len();
        if internal_field_count != 1 {
            let mut msg = String::from_str("internal_field_count != 1, got ");
            msg.append(to_decimal(internal_field_count).as_str());
            return Err(TryFromJsValueError::new(msg.as_str()));
        }
        let internal0 = match get_external_internal_value_from_js_object(object, 0) {
            Ok(value) => value,
            Err(e) => {
                return Err(e);
            },
        };
        let obj_id = ObjectId::from_ptr(internal0);
        match get_registered_rust_object(registry, obj_id) {
            Some(rs) => downcast_or_error(obj_id, rs.try_downcast()),
            None => {
                let mut msg = String::from_str("no object with id ");
                msg.append(render_object_id(obj_id).as_str());
                Err(TryFromJsValueError::new(msg.as_str()))
            },
        }
    }

    /// Exporting a handle starts here: the weak reference to the proxy that
    /// was registered for this handle's object, if any.  Where it is still
    /// alive, that proxy is the export; otherwise a proxy is created and
    /// entered with [`register_object_enabling_bigc`].
    pub fn get_js_value<'a, W>(&self, registry: &'a Registry<W>) -> (proxy: Option<&'a W>)
        ensures
            match proxy {
                Some(weak) => lookup_proxy(registry@, self.id()) == Some(*weak),
                None => lookup_proxy(registry@, self.id()) is None,
            },
    {
        get_registered_js_object(registry, self.id())
    }
}

/// A proxy as an export leaves it: one internal field, which holds the raw
/// identity of the exported object.
pub open spec fn is_proxy_of(reading: JsObjectReading, id: ObjectId) -> bool {
    reading.internal_fields@ == seq![InternalField::External(id@)]
}

/// Importing what an export produced gives a handle to the exported object.
/// After `erased` has been registered and its proxy carries its identity, an
/// import from that proxy finds the entry; if it yields a handle, the handle
/// has the identity of `erased`, and the one failure left is the downcast's.
pub proof fn lemma_import_after_export<T: 'static, W>(
    before: Map<usize, (RcAny, W)>,
    erased: RcAny,
    weak: W,
    proxy: JsObjectReading,
    r: Result<RcObject<T>, TryFromJsValueError>,
)
    requires
        is_proxy_of(proxy, erased.id()),
        handle_import(before.insert(erased.id()@, (erased, weak)), Some(proxy), r),
    ensures
        match r {
            Ok(obj) => obj.id() == erased.id(),
            Err(e) => e@ == downcast_failed_message(erased.id()@),
        },
{
}

/// A second export meets the proxy of the first.  Once `erased` is registered
/// with `weak`, looking up the proxy of the same identity gives `weak`, and
/// keeps giving it while other objects come and go.
pub proof fn lemma_export_is_stable<W>(
    before: Map<usize, (RcAny, W)>,
    erased: RcAny,
    weak: W,
    other: RcAny,
    other_weak: W,
)
    requires
        other.id() != erased.id(),
    ensures
        lookup_proxy(before.insert(erased.id()@, (erased, weak)), erased.id()) == Some(weak),
        lookup_proxy(
            before.insert(erased.id()@, (erased, weak)).insert(other.id()@, (other, other_weak)),
            erased.id(),
        ) == Some(weak),
        lookup_proxy(before.insert(erased.id()@, (erased, weak)).remove(other.id()@), erased.id())
            == Some(weak),
{
    ObjectId::lemma_view_injective(other.id(), erased.id());
}

/// Cleanup happens once.  After the finalizer of `id` has unregistered it, the
/// registry holds nothing under `id`, every other entry is as before, and
/// unregistering again changes nothing.
pub proof fn lemma_unregister_once<W>(entries: Map<usize, (RcAny, W)>, id: ObjectId, other: ObjectId)
    requires
        other != id,
    ensures
        lookup_object(entries.remove(id@), id) is None,
        lookup_proxy(entries.remove(id@), id) is None,
        lookup_object(entries.remove(id@), other) == lookup_object(entries, other),
        entries.remove(id@).remove(id@) == entries.remove(id@),
        !entries.contains_key(id@) ==> entries.remove(id@) == entries,
{
    ObjectId::lemma_view_injective(other, id);
    assert(entries.remove(id@).remove(id@) =~= entries.remove(id@));
    if !entries.contains_key(id@) {
        assert(entries.remove(id@) =~= entries);
    }
}

} // verus!
