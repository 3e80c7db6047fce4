//! The parameter engine: the public get/set surface over the compiled
//! table, a per-parameter cache, validation, and the bookkeeping of
//! change notifications and per-parameter listeners.
//!
//! The engine is sequential; the rim that owns it runs it under a process
//! lock, sends the queued notification datagrams, runs the receiver and
//! the poll loop, and invokes listeners by the tokens the engine hands
//! back.

use vstd::prelude::*;
use vstd::string::StrSliceExecFns;
use vstd::string::StringExecFns;

use crate::codec::{spec_default_of, spec_read_value, ScalarModel};
use crate::config::Config;
use crate::database_utils::{
    spec_ids_of_keys, spec_lookup_name, lookup_name, DatabaseManager, Status,
};
use crate::schema::{
    spec_accepts, spec_param_wf, spec_compiled_groups, spec_compiled_params, spec_params_wf, spec_schema_ok,
    Group, GroupDescriptor, Parameter, SchemaManager, ValidationMethod,
};
use crate::value::{spec_type_matches, ParameterValue, ParameterValueType};
use crate::EconfError;

verus! {

/// Whether `v` occurs in `ids`.
pub open spec fn spec_ids_contain(ids: Seq<usize>, v: int) -> bool {
    exists|m: int| 0 <= m < ids.len() && (#[trigger] ids[m]) as int == v
}

/// The text form of a value, where one exists: see
/// [`InterfaceInstance::value_to_string`].
pub open spec fn spec_value_string(v: crate::value::ValueModel) -> Option<Seq<char>> {
    match v {
        crate::value::ValueModel::MBool(b) => Option::Some(
            if b {
                "true"@
            } else {
                "false"@
            },
        ),
        crate::value::ValueModel::MI32(x) => Option::Some(
            crate::text::spec_dec_str_signed(x as int),
        ),
        crate::value::ValueModel::MU32(x) => Option::Some(crate::text::spec_dec_str(x as nat)),
        crate::value::ValueModel::MI64(x) => Option::Some(
            crate::text::spec_dec_str_signed(x as int),
        ),
        crate::value::ValueModel::MU64(x) => Option::Some(crate::text::spec_dec_str(x as nat)),
        crate::value::ValueModel::MString(s) => Option::Some(s),
        crate::value::ValueModel::MBlob(b) => if b.len() <= usize::MAX / 4 {
            Option::Some(crate::b64::base64_of(b))
        } else {
            Option::None
        },
        crate::value::ValueModel::MEnum(x) => Option::Some(
            crate::text::spec_dec_str_signed(x as int),
        ),
        _ => Option::None,
    }
}

/// One scalar taken from a JSON document, as the rim hands it over: a
/// number carries its signed and unsigned readings where they exist and
/// the bit pattern of its double reading; arrays and objects are carried
/// only as the composite marker.
pub enum JsonScalar {
    JsNull,
    JsBool(bool),
    JsNumber { int_val: Option<i64>, uint_val: Option<u64>, float_bits: Option<u64> },
    JsText(String),
    JsComposite,
}

/// What converting a JSON scalar to declared type `t` yields: see
/// [`InterfaceInstance::set_from_json`].
pub open spec fn spec_converted_from_json(
    t: ParameterValueType,
    v: JsonScalar,
    r: Result<ParameterValue, EconfError>,
) -> bool {
    match t {
        ParameterValueType::TypeBool => match v {
            JsonScalar::JsBool(b) => r matches Ok(o) && o@ == crate::value::ValueModel::MBool(b),
            _ => r == Err::<ParameterValue, EconfError>(EconfError::ErrTypeMismatch),
        },
        ParameterValueType::TypeI32 => match v {
            JsonScalar::JsNumber { int_val: Option::Some(i), .. } => r matches Ok(o) && o@
                == crate::value::ValueModel::MI32(i as i32),
            _ => r == Err::<ParameterValue, EconfError>(EconfError::ErrTypeMismatch),
        },
        ParameterValueType::TypeU32 => match v {
            JsonScalar::JsNumber { uint_val: Option::Some(u), .. } => r matches Ok(o) && o@
                == crate::value::ValueModel::MU32(u as u32),
            _ => r == Err::<ParameterValue, EconfError>(EconfError::ErrTypeMismatch),
        },
        ParameterValueType::TypeI64 => match v {
            JsonScalar::JsNumber { int_val: Option::Some(i), .. } => r matches Ok(o) && o@
                == crate::value::ValueModel::MI64(i),
            _ => r == Err::<ParameterValue, EconfError>(EconfError::ErrTypeMismatch),
        },
        ParameterValueType::TypeU64 => match v {
            JsonScalar::JsNumber { uint_val: Option::Some(u), .. } => r matches Ok(o) && o@
                == crate::value::ValueModel::MU64(u),
            _ => r == Err::<ParameterValue, EconfError>(EconfError::ErrTypeMismatch),
        },
        ParameterValueType::TypeF32 => r == Err::<ParameterValue, EconfError>(
            EconfError::ErrUnsupported,
        ),
        ParameterValueType::TypeF64 => match v {
            JsonScalar::JsNumber { float_bits: Option::Some(bits), .. } => r matches Ok(o) && o@
                == crate::value::ValueModel::MF64(bits),
            _ => r == Err::<ParameterValue, EconfError>(EconfError::ErrTypeMismatch),
        },
        ParameterValueType::TypeString => match v {
            JsonScalar::JsText(s) => r matches Ok(o) && o@ == crate::value::ValueModel::MString(
                s@,
            ),
            _ => r == Err::<ParameterValue, EconfError>(EconfError::ErrTypeMismatch),
        },
        ParameterValueType::TypeBlob => match v {
            JsonScalar::JsText(s) => match crate::b64::base64_decode_of(s@) {
                Option::Some(bytes) => r matches Ok(o) && o@ == crate::value::ValueModel::MBlob(
                    bytes,
                ),
                Option::None => r == Err::<ParameterValue, EconfError>(
                    EconfError::ErrTypeMismatch,
                ),
            },
            _ => r == Err::<ParameterValue, EconfError>(EconfError::ErrTypeMismatch),
        },
        ParameterValueType::TypeEnum(_) => match v {
            JsonScalar::JsNumber { int_val: Option::Some(i), .. } => r matches Ok(o) && o@
                == crate::value::ValueModel::MEnum(i as i32),
            _ => r == Err::<ParameterValue, EconfError>(EconfError::ErrTypeMismatch),
        },
        ParameterValueType::TypeNone => r matches Ok(o) && o@ == crate::value::ValueModel::MNone,
    }
}

/// What converting text to declared type `t` yields: see
/// [`InterfaceInstance::set_from_string`].
pub open spec fn spec_converted_from_string(
    t: ParameterValueType,
    s: Seq<char>,
    r: Result<ParameterValue, EconfError>,
) -> bool {
    match t {
        ParameterValueType::TypeBool => match crate::text::spec_parse_bool(s) {
            Option::Some(b) => r matches Ok(o) && o@ == crate::value::ValueModel::MBool(b),
            Option::None => r == Err::<ParameterValue, EconfError>(EconfError::ErrTypeMismatch),
        },
        ParameterValueType::TypeI32 => match crate::text::spec_parse_signed(
            s,
            i32::MIN as int,
            i32::MAX as int,
        ) {
            Option::Some(x) => r matches Ok(o) && o@ == crate::value::ValueModel::MI32(
                x as i32,
            ),
            Option::None => r == Err::<ParameterValue, EconfError>(EconfError::ErrTypeMismatch),
        },
        ParameterValueType::TypeU32 => match crate::text::spec_parse_unsigned(
            s,
            u32::MAX as nat,
        ) {
            Option::Some(x) => r matches Ok(o) && o@ == crate::value::ValueModel::MU32(
                x as u32,
            ),
            Option::None => r == Err::<ParameterValue, EconfError>(EconfError::ErrTypeMismatch),
        },
        ParameterValueType::TypeI64 => match crate::text::spec_parse_signed(
            s,
            i64::MIN as int,
            i64::MAX as int,
        ) {
            Option::Some(x) => r matches Ok(o) && o@ == crate::value::ValueModel::MI64(
                x as i64,
            ),
            Option::None => r == Err::<ParameterValue, EconfError>(EconfError::ErrTypeMismatch),
        },
        ParameterValueType::TypeU64 => match crate::text::spec_parse_unsigned(
            s,
            u64::MAX as nat,
        ) {
            Option::Some(x) => r matches Ok(o) && o@ == crate::value::ValueModel::MU64(
                x as u64,
            ),
            Option::None => r == Err::<ParameterValue, EconfError>(EconfError::ErrTypeMismatch),
        },
        ParameterValueType::TypeF32 | ParameterValueType::TypeF64 => r == Err::<
            ParameterValue,
            EconfError,
        >(EconfError::ErrUnsupported),
        ParameterValueType::TypeString => r matches Ok(o) && o@
            == crate::value::ValueModel::MString(s),
        ParameterValueType::TypeBlob => match crate::b64::base64_decode_of(s) {
            Option::Some(bytes) => r matches Ok(o) && o@ == crate::value::ValueModel::MBlob(
                bytes,
            ),
            Option::None => r == Err::<ParameterValue, EconfError>(EconfError::ErrTypeMismatch),
        },
        ParameterValueType::TypeEnum(_) => match crate::text::spec_parse_signed(
            s,
            i32::MIN as int,
            i32::MAX as int,
        ) {
            Option::Some(x) => r matches Ok(o) && o@ == crate::value::ValueModel::MEnum(
                x as i32,
            ),
            Option::None => r == Err::<ParameterValue, EconfError>(EconfError::ErrTypeMismatch),
        },
        ParameterValueType::TypeNone => r matches Ok(o) && o@ == crate::value::ValueModel::MNone,
    }
}

/// The cache after slot `id` was filled with a value modelling `v`,
/// every other slot untouched.
pub open spec fn spec_cache_updated(
    pre: Seq<Option<ParameterValue>>,
    post: Seq<Option<ParameterValue>>,
    id: int,
    v: crate::value::ValueModel,
) -> bool {
    &&& post.len() == pre.len()
    &&& post[id] matches Option::Some(c) && c@ == v
    &&& forall|j: int| 0 <= j < pre.len() && j != id ==> post[j] == pre[j]
}

/// The engine: the compiled table, the durable store, one cached value
/// and one optional listener token per parameter, and the ids whose
/// change notifications are owed to the bus.
pub struct InterfaceInstance {
    pub table: Vec<Parameter>,
    pub groups: Vec<Group>,
    pub database: DatabaseManager,
    pub cache: Vec<Option<ParameterValue>>,
    pub callbacks: Vec<Option<u64>>,
    pub pending_notifications: Vec<usize>,
}

impl InterfaceInstance {
    /// The engine's invariant: a well-formed, uniquely named table, one
    /// cache slot and one listener slot per parameter, and only valid
    /// ids owed to the bus.
    pub open spec fn wf(&self) -> bool {
        &&& spec_params_wf(self.table@)
        &&& self.cache@.len() == self.table@.len()
        &&& self.callbacks@.len() == self.table@.len()
        &&& forall|i: int|
            0 <= i < self.pending_notifications@.len() ==> (
            #[trigger] self.pending_notifications@[i]) < self.table@.len()
    }

    /// What a store-touching operation never changes.
    pub open spec fn same_store_paths(pre: &Self, post: &Self) -> bool {
        &&& post.database.database_path == pre.database.database_path
        &&& post.database.saved_database_path == pre.database.saved_database_path
        &&& post.database.default_data == pre.database.default_data
        &&& post.table == pre.table
        &&& post.groups == pre.groups
    }

    /// Compile the schema description and open the engine on the
    /// configured paths with every cache slot empty, no listeners, and
    /// nothing owed to the bus. `default_data` registers the bytes behind
    /// each blob default path. A description that does not compile is
    /// refused as a validation error; otherwise only the store can fail.
    pub fn new(
        descriptors: Vec<GroupDescriptor>,
        database_path: &String,
        saved_database_path: &String,
        default_data_folder: &String,
        default_data: Vec<(String, Vec<u8>)>,
    ) -> (r: Result<InterfaceInstance, EconfError>)
        ensures
            match r {
                Ok(engine) => {
                    &&& engine.wf()
                    &&& spec_schema_ok(descriptors@)
                    &&& spec_compiled_params(descriptors@, engine.table@)
                    &&& spec_compiled_groups(descriptors@, engine.groups@)
                    &&& engine.database.database_path@ == database_path@
                    &&& engine.database.saved_database_path@ == saved_database_path@
                    &&& engine.database.default_data == default_data
                    &&& engine.database.durable_writes@ == 0
                    &&& forall|i: int|
                        0 <= i < engine.cache@.len() ==> (#[trigger] engine.cache@[i]) is None
                    &&& forall|i: int|
                        0 <= i < engine.callbacks@.len() ==> (
                        #[trigger] engine.callbacks@[i]) is None
                    &&& engine.pending_notifications@.len() == 0
                },
                Err(e) => e == EconfError::ErrValidation || e == EconfError::ErrIo || e
                    == EconfError::ErrBusy,
            },
    {
        let schema = SchemaManager::new(descriptors);
        let (table, groups) = match schema.get_parameters() {
            Ok(out) => out,
            Err(_) => {
                return Err(EconfError::ErrValidation);
            },
        };
        let config = match Config::new(database_path, saved_database_path, default_data_folder) {
            Ok(c) => c,
            Err(e) => {
                return Err(e);
            },
        };
        let database = match DatabaseManager::new(&config, default_data) {
            Ok(d) => d,
            Err(e) => {
                return Err(e);
            },
        };
        let count: usize = table.len();
        let mut cache: Vec<Option<ParameterValue>> = Vec::new();
        let mut callbacks: Vec<Option<u64>> = Vec::new();
        let mut i: usize = 0;
        while i < count
            invariant
                i <= count,
                cache@.len() == i,
                callbacks@.len() == i,
                forall|j: int| 0 <= j < i ==> (#[trigger] cache@[j]) is None,
                forall|j: int| 0 <= j < i ==> (#[trigger] callbacks@[j]) is None,
            decreases count - i,
        {
            cache.push(Option::None);
            callbacks.push(Option::None);
            i = i + 1;
        }
        Ok(
            InterfaceInstance {
                table,
                groups,
                database,
                cache,
                callbacks,
                pending_notifications: Vec::new(),
            },
        )
    }

    /// What a finished read guarantees: see [`InterfaceInstance::get`].
    pub open spec fn spec_get_post(
        pre: Self,
        post: Self,
        id: usize,
        force: bool,
        r: Result<ParameterValue, EconfError>,
    ) -> bool {
        &&& post.wf()
        &&& Self::same_store_paths(&pre, &post)
        &&& post.callbacks == pre.callbacks
        &&& post.pending_notifications == pre.pending_notifications
        &&& post.database.durable_writes@ == pre.database.durable_writes@
        &&& post.database.last_update_timestamp == pre.database.last_update_timestamp
        &&& (id >= pre.table@.len() ==> r == Err::<ParameterValue, EconfError>(
            EconfError::ErrInvalidId,
        ) && post == pre)
        &&& (id < pre.table@.len() ==> match r {
            Ok(v) => {
                if !force && pre.cache@[id as int] is Some {
                    &&& v@ == pre.cache@[id as int]->0@
                    &&& post == pre
                } else {
                    ||| (spec_cache_updated(pre.cache@, post.cache@, id as int, v@) && exists|
                        stored: Option<ScalarModel>,
                    |
                        v@ == spec_read_value(
                            &pre.table@[id as int],
                            stored,
                            pre.database.default_data@,
                        ))
                    ||| (post.cache@ == pre.cache@ && v@ == spec_default_of(
                        &pre.table@[id as int],
                        pre.database.default_data@,
                    ))
                }
            },
            Err(_) => false,
        })
    }

    /// Read parameter `id`: the cached value when one is present and no
    /// refresh is forced; otherwise what the store holds, decoded by the
    /// declared type with the default as fallback, which then fills the
    /// cache. A read the store refuses returns the materialised default
    /// and leaves the cache alone. Every valid id reads successfully.
    pub fn get(&mut self, id: usize, force: bool) -> (r: Result<ParameterValue, EconfError>)
        requires
            old(self).wf(),
        ensures
            Self::spec_get_post(*old(self), *final(self), id, force, r),
    {
        if id >= self.table.len() {
            return Err(EconfError::ErrInvalidId);
        }
        if !force {
            if let Option::Some(v) = &self.cache[id] {
                return Ok(v.duplicate());
            }
        }
        match self.database.read_or_create(&self.table[id]) {
            Ok(v) => {
                self.cache.set(id, Option::Some(v.duplicate()));
                Ok(v)
            },
            Err(_) => {
                // a failed read serves the default and does not fill the
                // cache
                let v = crate::codec::default_of(&self.table[id], &self.database.default_data);
                Ok(v)
            },
        }
    }

    /// What a finished write guarantees: see [`InterfaceInstance::set`].
    pub open spec fn spec_set_post(
        pre: Self,
        post: Self,
        id: usize,
        value: crate::value::ValueModel,
        r: Result<ParameterValue, EconfError>,
    ) -> bool {
        &&& post.wf()
        &&& Self::same_store_paths(&pre, &post)
        &&& post.callbacks == pre.callbacks
        &&& post.database.last_update_timestamp == pre.database.last_update_timestamp
        &&& (id >= pre.table@.len() ==> r == Err::<ParameterValue, EconfError>(
            EconfError::ErrInvalidId,
        ) && post == pre)
        &&& (id < pre.table@.len() ==> {
            let p = pre.table@[id as int];
            &&& (p.is_const ==> r == Err::<ParameterValue, EconfError>(EconfError::ErrConst)
                && post == pre)
            &&& (!p.is_const && !spec_type_matches(p.value_type, value) ==> r == Err::<
                ParameterValue,
                EconfError,
            >(EconfError::ErrTypeMismatch) && post == pre)
            &&& (!p.is_const && spec_type_matches(p.value_type, value) && !spec_accepts(
                p.validation,
                value,
            ) ==> r == Err::<ParameterValue, EconfError>(EconfError::ErrValidation) && post
                == pre)
            &&& (!p.is_const && spec_type_matches(p.value_type, value) && spec_accepts(
                p.validation,
                value,
            ) ==> match r {
                Ok(v) => {
                    &&& v@ == value
                    &&& spec_cache_updated(pre.cache@, post.cache@, id as int, v@)
                    &&& {
                        ||| (post.database.durable_writes@ == pre.database.durable_writes@ + 1
                            && post.pending_notifications@
                            == pre.pending_notifications@.push(id))
                        ||| (post.database.durable_writes@ == pre.database.durable_writes@
                            && post.pending_notifications@ == pre.pending_notifications@
                            && exists|stored: Option<ScalarModel>|
                            spec_read_value(&p, stored, pre.database.default_data@) == value)
                    }
                },
                Err(e) => {
                    &&& (e == EconfError::ErrIo || e == EconfError::ErrBusy)
                    &&& post.cache@ == pre.cache@
                    &&& post.pending_notifications@ == pre.pending_notifications@
                    &&& post.database.durable_writes@ == pre.database.durable_writes@
                },
            })
        })
    }

    /// Write `value` to parameter `id`. A constant parameter, a value of
    /// the wrong type and a value failing validation are refused, in that
    /// order, with nothing changed. An accepted value is stored (unless
    /// the store already reads back equal, in which case nothing is
    /// written), fills the cache slot, and exactly a changed store owes
    /// one notification to the bus. A refused store leaves cache, row and
    /// queue unchanged.
    pub fn set(&mut self, id: usize, parameter: ParameterValue) -> (r: Result<
        ParameterValue,
        EconfError,
    >)
        requires
            old(self).wf(),
        ensures
            Self::spec_set_post(*old(self), *final(self), id, parameter@, r),
    {
        if id >= self.table.len() {
            return Err(EconfError::ErrInvalidId);
        }
        if self.table[id].is_const {
            return Err(EconfError::ErrConst);
        }
        if !self.table[id].value_type.matches_value(&parameter) {
            return Err(EconfError::ErrTypeMismatch);
        }
        if !self.table[id].validation.accepts(&parameter) {
            return Err(EconfError::ErrValidation);
        }
        let stored = match self.database.write(&self.table[id], parameter, false) {
            Ok(status) => match status {
                Status::StatusOkChanged(v) => {
                    self.pending_notifications.push(id);
                    v
                },
                Status::StatusOkNotChanged(v) => v,
                Status::StatusOkNotChecked(v) | Status::StatusOkOverflowFixed(v) => {
                    // the store reports neither outcome; keep the value
                    // and treat it as changed
                    self.pending_notifications.push(id);
                    v
                },
                Status::StatusErrorNotAccepted(_) | Status::StatusErrorFailed => {
                    return Err(EconfError::ErrIo);
                },
            },
            Err(e) => {
                return Err(e);
            },
        };
        self.cache.set(id, Option::Some(stored.duplicate()));
        Ok(stored)
    }

    /// Sweep the store for rows stamped since the last sweep and clear
    /// the cache slot of every id found, so that the next read observes
    /// the fresh value; the ids are returned for the rim to dispatch
    /// their listeners. This is the poll fallback for dropped
    /// notifications.
    pub fn update(&mut self) -> (r: Result<Vec<usize>, EconfError>)
        requires
            old(self).wf(),
        ensures
            final(self).wf(),
            Self::same_store_paths(old(self), final(self)),
            final(self).callbacks == old(self).callbacks,
            final(self).pending_notifications == old(self).pending_notifications,
            final(self).database.durable_writes@ == old(self).database.durable_writes@,
            match r {
                Ok(ids) => {
                    &&& exists|keys: Seq<Seq<char>>|
                        ids@.map_values(|u: usize| u as int) == spec_ids_of_keys(
                            old(self).table@,
                            keys,
                        )
                    &&& forall|i: int|
                        0 <= i < ids@.len() ==> (#[trigger] ids@[i]) < old(self).table@.len()
                    &&& final(self).cache@.len() == old(self).cache@.len()
                    &&& forall|j: int|
                        0 <= j < old(self).cache@.len() && spec_ids_contain(ids@, j) ==> (
                        #[trigger] final(self).cache@[j]) is None
                    &&& forall|j: int|
                        0 <= j < old(self).cache@.len() && !spec_ids_contain(ids@, j) ==> (
                        #[trigger] final(self).cache@[j]) == old(self).cache@[j]
                },
                Err(e) => (e == EconfError::ErrIo || e == EconfError::ErrBusy)
                    && final(self).cache == old(self).cache,
            },
    {
        let ids = match self.database.update(&self.table) {
            Ok(ids) => ids,
            Err(e) => {
                return Err(e);
            },
        };
        let n: usize = ids.len();
        let mut i: usize = 0;
        let ghost pre_cache = self.cache@;
        let ghost mid = *self;
        while i < n
            invariant
                n == ids@.len(),
                i <= n,
                self.table == mid.table,
                self.groups == mid.groups,
                self.database == mid.database,
                self.callbacks == mid.callbacks,
                self.pending_notifications == mid.pending_notifications,
                pre_cache == mid.cache@,
                self.cache@.len() == pre_cache.len(),
                forall|m: int| 0 <= m < n ==> (#[trigger] ids@[m]) < pre_cache.len(),
                forall|j: int|
                    0 <= j < pre_cache.len() ==> self.cache@[j] == (
                    if exists|m: int| 0 <= m < i && (#[trigger] ids@[m]) as int == j {
                        Option::None::<ParameterValue>
                    } else {
                        pre_cache[j]
                    }),
            decreases n - i,
        {
            let id = ids[i];
            self.cache.set(id, Option::None);
            i = i + 1;
            proof {
                assert forall|j: int| 0 <= j < pre_cache.len() implies self.cache@[j] == (
                    if exists|m: int| 0 <= m < i && (#[trigger] ids@[m]) as int == j {
                        Option::None::<ParameterValue>
                    } else {
                        pre_cache[j]
                    }) by {
                    if j == id as int {
                        assert(0 <= i - 1 < i && (ids@[i - 1]) as int == j);
                    } else {
                        if exists|m: int| 0 <= m < i && (#[trigger] ids@[m]) as int == j {
                            let m = choose|m: int|
                                0 <= m < i && (#[trigger] ids@[m]) as int == j;
                            assert(0 <= m < i - 1 && (ids@[m]) as int == j);
                        }
                    }
                }
            }
        }
        Ok(ids)
    }

    /// Install `token` as the single listener of parameter `id`,
    /// replacing any present one.
    pub fn add_callback(&mut self, id: usize, token: u64) -> (r: Result<(), EconfError>)
        requires
            old(self).wf(),
        ensures
            final(self).wf(),
            final(self).table == old(self).table,
            final(self).groups == old(self).groups,
            final(self).database == old(self).database,
            final(self).cache == old(self).cache,
            final(self).pending_notifications == old(self).pending_notifications,
            id < old(self).table@.len() ==> r == Ok::<(), EconfError>(()) && final(self).callbacks@ == old(self).callbacks@.update(id as int, Option::Some(token)),
            id >= old(self).table@.len() ==> r == Err::<(), EconfError>(EconfError::ErrInvalidId)
                && *final(self) == *old(self),
    {
        if id < self.table.len() {
            self.callbacks.set(id, Option::Some(token));
            Ok(())
        } else {
            Err(EconfError::ErrInvalidId)
        }
    }

    /// Remove the listener of parameter `id`, if any.
    pub fn delete_callback(&mut self, id: usize) -> (r: Result<(), EconfError>)
        requires
            old(self).wf(),
        ensures
            final(self).wf(),
            final(self).table == old(self).table,
            final(self).groups == old(self).groups,
            final(self).database == old(self).database,
            final(self).cache == old(self).cache,
            final(self).pending_notifications == old(self).pending_notifications,
            id < old(self).table@.len() ==> r == Ok::<(), EconfError>(()) && final(self).callbacks@ == old(self).callbacks@.update(id as int, Option::None),
            id >= old(self).table@.len() ==> r == Err::<(), EconfError>(EconfError::ErrInvalidId)
                && *final(self) == *old(self),
    {
        if id < self.table.len() {
            self.callbacks.set(id, Option::None);
            Ok(())
        } else {
            Err(EconfError::ErrInvalidId)
        }
    }

    /// The listener token installed for `id`, if any.
    pub fn callback_token(&self, id: usize) -> (r: Option<u64>)
        requires
            self.wf(),
            id < self.table@.len(),
        ensures
            r == self.callbacks@[id as int],
    {
        self.callbacks[id]
    }

    /// Owe the bus one notification for every parameter, so that every
    /// process re-reads from storage.
    pub fn notify_all_force(&mut self) -> (r: Result<(), EconfError>)
        requires
            old(self).wf(),
        ensures
            final(self).wf(),
            r == Ok::<(), EconfError>(()),
            final(self).table == old(self).table,
            final(self).groups == old(self).groups,
            final(self).database == old(self).database,
            final(self).cache == old(self).cache,
            final(self).callbacks == old(self).callbacks,
            final(self).pending_notifications@ == old(self).pending_notifications@ + Seq::new(old(self).table@.len(), |i: int| i as usize),
    {
        let count: usize = self.table.len();
        let ghost pre = self.pending_notifications@;
        let mut i: usize = 0;
        while i < count
            invariant
                count == self.table@.len(),
                i <= count,
                self.table == old(self).table,
                self.groups == old(self).groups,
                self.database == old(self).database,
                self.cache == old(self).cache,
                self.callbacks == old(self).callbacks,
                pre == old(self).pending_notifications@,
                self.pending_notifications@ =~= pre + Seq::new(i as nat, |j: int| j as usize),
            decreases count - i,
        {
            self.pending_notifications.push(i);
            i = i + 1;
            proof {
                assert(self.pending_notifications@ =~= pre + Seq::new(i as nat, |j: int| j as usize));
            }
        }
        Ok(())
    }

    /// Hand the rim the ids whose change notifications are owed, leaving
    /// the queue empty; the rim sends one encoded datagram per id.
    pub fn take_pending_notifications(&mut self) -> (r: Vec<usize>)
        requires
            old(self).wf(),
        ensures
            final(self).wf(),
            r@ == old(self).pending_notifications@,
            final(self).pending_notifications@.len() == 0,
            final(self).table == old(self).table,
            final(self).groups == old(self).groups,
            final(self).database == old(self).database,
            final(self).cache == old(self).cache,
            final(self).callbacks == old(self).callbacks,
    {
        let mut out: Vec<usize> = Vec::new();
        core::mem::swap(&mut out, &mut self.pending_notifications);
        out
    }

    /// Take one received datagram: a well-formed notification for a known
    /// parameter clears that parameter's cache slot, so that the next
    /// read observes the fresh value, and hands back the id with its
    /// listener token for the rim to invoke. Anything else is malformed
    /// and changes nothing.
    pub fn handle_notification(&mut self, buf: &Vec<u8>) -> (r: Result<
        (usize, Option<u64>),
        EconfError,
    >)
        requires
            old(self).wf(),
        ensures
            final(self).wf(),
            Self::same_store_paths(old(self), final(self)),
            final(self).callbacks == old(self).callbacks,
            final(self).pending_notifications == old(self).pending_notifications,
            final(self).database == old(self).database,
            match crate::wire::spec_decode_notification(buf@) {
                Option::Some(n) => if (n as int) < old(self).table@.len() {
                    &&& r == Ok::<(usize, Option<u64>), EconfError>(
                        (n as usize, old(self).callbacks@[n as int]),
                    )
                    &&& final(self).cache@ == old(self).cache@.update(n as int, Option::None)
                } else {
                    r == Err::<(usize, Option<u64>), EconfError>(EconfError::ErrMalformed)
                        && *final(self) == *old(self)
                },
                Option::None => r == Err::<(usize, Option<u64>), EconfError>(
                    EconfError::ErrMalformed,
                ) && *final(self) == *old(self),
            },
    {
        match crate::wire::decode_notification(buf) {
            Option::Some(raw) => {
                let id = raw as usize;
                if id < self.table.len() {
                    self.cache.set(id, Option::None);
                    Ok((id, self.callbacks[id]))
                } else {
                    Err(EconfError::ErrMalformed)
                }
            },
            Option::None => Err(EconfError::ErrMalformed),
        }
    }

    /// Replace the live database with the saved snapshot, clear every
    /// cache slot, and owe the bus a notification for every parameter.
    pub fn load(&mut self) -> (r: Result<(), EconfError>)
        requires
            old(self).wf(),
        ensures
            final(self).wf(),
            Self::same_store_paths(old(self), final(self)),
            final(self).callbacks == old(self).callbacks,
            final(self).database.durable_writes@ == old(self).database.durable_writes@,
            match r {
                Ok(_) => {
                    &&& final(self).cache@.len() == old(self).cache@.len()
                    &&& forall|j: int|
                        0 <= j < final(self).cache@.len() ==> (#[trigger] final(self).cache@[j])
                            is None
                    &&& final(self).pending_notifications@ == old(self).pending_notifications@
                        + Seq::new(old(self).table@.len(), |i: int| i as usize)
                },
                Err(e) => (e == EconfError::ErrIo || e == EconfError::ErrBusy) && *final(self)
                    == *old(self),
            },
    {
        match self.database.load_database() {
            Ok(_) => {},
            Err(e) => {
                return Err(e);
            },
        }
        self.invalidate_all();
        self.notify_all_force()
    }

    /// Drop the durable table, re-create it empty, clear every cache
    /// slot, and owe the bus a notification for every parameter: the
    /// factory reset, after which every read returns the default.
    pub fn factory_reset(&mut self) -> (r: Result<(), EconfError>)
        requires
            old(self).wf(),
        ensures
            final(self).wf(),
            Self::same_store_paths(old(self), final(self)),
            final(self).callbacks == old(self).callbacks,
            final(self).database.durable_writes@ == old(self).database.durable_writes@,
            match r {
                Ok(_) => {
                    &&& final(self).cache@.len() == old(self).cache@.len()
                    &&& forall|j: int|
                        0 <= j < final(self).cache@.len() ==> (#[trigger] final(self).cache@[j])
                            is None
                    &&& final(self).pending_notifications@ == old(self).pending_notifications@
                        + Seq::new(old(self).table@.len(), |i: int| i as usize)
                },
                Err(e) => (e == EconfError::ErrIo || e == EconfError::ErrBusy) && *final(self)
                    == *old(self),
            },
    {
        match self.database.drop_database() {
            Ok(_) => {},
            Err(e) => {
                return Err(e);
            },
        }
        self.invalidate_all();
        self.notify_all_force()
    }

    /// Copy the non-runtime rows into the saved snapshot.
    pub fn save(&mut self) -> (r: Result<(), EconfError>)
        requires
            old(self).wf(),
        ensures
            final(self).wf(),
            *final(self) == *old(self),
            r matches Err(e) ==> (e == EconfError::ErrIo || e == EconfError::ErrBusy),
    {
        self.database.save_database(&self.table)
    }

    /// The canonical `"<group>@<field>"` name of parameter `id`.
    pub fn get_name(&self, id: usize) -> (r: String)
        requires
            self.wf(),
            id < self.table@.len(),
        ensures
            r@ == self.table@[id as int].name_id@,
    {
        self.table[id].name_id.clone()
    }

    /// The group prefix of parameter `id`'s name: the characters before
    /// the first `'@'`, or the whole name when none occurs.
    pub fn get_group(&self, id: usize) -> (r: String)
        requires
            self.wf(),
            id < self.table@.len(),
        ensures
            exists|k: int|
                #![trigger self.table@[id as int].name_id@.take(k)]
                {
                    let name = self.table@[id as int].name_id@;
                    &&& 0 <= k <= name.len()
                    &&& r@ == name.take(k)
                    &&& forall|j: int| 0 <= j < k ==> #[trigger] name[j] != '@'
                    &&& (k == name.len() || name[k] == '@')
                },
    {
        let name = self.table[id].name_id.as_str();
        let n = name.unicode_len();
        let mut k: usize = 0;
        while k < n
            invariant
                id < self.table@.len(),
                name@ == self.table@[id as int].name_id@,
                n == name@.len(),
                k <= n,
                forall|j: int| 0 <= j < k ==> #[trigger] name@[j] != '@',
            decreases n - k,
        {
            if name.get_char(k) == '@' {
                let prefix = name.substring_char(0, k);
                let owned = prefix.to_owned();
                proof {
                    assert(owned@ =~= self.table@[id as int].name_id@.take(k as int));
                }
                return owned;
            }
            k = k + 1;
        }
        let whole = name.substring_char(0, n);
        let owned = whole.to_owned();
        proof {
            assert(owned@ =~= self.table@[id as int].name_id@.take(n as int));
        }
        owned
    }

    /// The comment of parameter `id`.
    pub fn get_comment(&self, id: usize) -> (r: String)
        requires
            self.wf(),
            id < self.table@.len(),
        ensures
            r@ == self.table@[id as int].comment@,
    {
        self.table[id].comment.clone()
    }

    /// The title of parameter `id`.
    pub fn get_title(&self, id: usize) -> (r: String)
        requires
            self.wf(),
            id < self.table@.len(),
        ensures
            r@ == self.table@[id as int].title@,
    {
        self.table[id].title.clone()
    }

    /// Whether parameter `id` refuses every write.
    pub fn is_const(&self, id: usize) -> (r: bool)
        requires
            self.wf(),
            id < self.table@.len(),
        ensures
            r == self.table@[id as int].is_const,
    {
        self.table[id].is_const
    }

    /// Whether parameter `id` is volatile and excluded from the saved
    /// snapshot.
    pub fn is_runtime(&self, id: usize) -> (r: bool)
        requires
            self.wf(),
            id < self.table@.len(),
        ensures
            r == self.table@[id as int].runtime,
    {
        self.table[id].runtime
    }

    /// Whether parameter `id` refuses writes from the external surface.
    pub fn is_readonly(&self, id: usize) -> (r: bool)
        requires
            self.wf(),
            id < self.table@.len(),
        ensures
            r == self.table@[id as int].readonly,
    {
        self.table[id].readonly
    }

    /// Whether parameter `id` is hidden from the external surface.
    pub fn is_internal(&self, id: usize) -> (r: bool)
        requires
            self.wf(),
            id < self.table@.len(),
        ensures
            r == self.table@[id as int].internal,
    {
        self.table[id].internal
    }

    /// The tags of parameter `id`.
    pub fn get_tags(&self, id: usize) -> (r: Vec<String>)
        requires
            self.wf(),
            id < self.table@.len(),
        ensures
            r@.len() == self.table@[id as int].tags@.len(),
            forall|j: int|
                0 <= j < r@.len() ==> (#[trigger] r@[j])@ == self.table@[id as int].tags@[j]@,
    {
        let tags = &self.table[id].tags;
        let n: usize = tags.len();
        let mut out: Vec<String> = Vec::new();
        let mut i: usize = 0;
        while i < n
            invariant
                n == tags@.len(),
                i <= n,
                out@.len() == i,
                forall|j: int| 0 <= j < i ==> (#[trigger] out@[j])@ == tags@[j]@,
            decreases n - i,
        {
            out.push(tags[i].clone());
            i = i + 1;
        }
        out
    }

    /// The groups of the table, each as its name, title and comment.
    pub fn get_groups(&self) -> (r: Vec<(String, String, String)>)
        requires
            self.wf(),
        ensures
            r@.len() == self.groups@.len(),
            forall|j: int|
                0 <= j < r@.len() ==> {
                    &&& (#[trigger] r@[j]).0@ == self.groups@[j].name@
                    &&& r@[j].1@ == self.groups@[j].title@
                    &&& r@[j].2@ == self.groups@[j].comment@
                },
    {
        let n: usize = self.groups.len();
        let mut out: Vec<(String, String, String)> = Vec::new();
        let mut i: usize = 0;
        while i < n
            invariant
                n == self.groups@.len(),
                i <= n,
                out@.len() == i,
                forall|j: int|
                    0 <= j < i ==> {
                        &&& (#[trigger] out@[j]).0@ == self.groups@[j].name@
                        &&& out@[j].1@ == self.groups@[j].title@
                        &&& out@[j].2@ == self.groups@[j].comment@
                    },
            decreases n - i,
        {
            let g = &self.groups[i];
            out.push((g.name.clone(), g.title.clone(), g.comment.clone()));
            i = i + 1;
        }
        out
    }

    /// The external name of parameter `id`'s declared type; an enum is
    /// carried as a 32-bit integer.
    pub fn get_type_string(&self, id: usize) -> (r: String)
        requires
            self.wf(),
            id < self.table@.len(),
        ensures
            r@ == match self.table@[id as int].value_type {
                ParameterValueType::TypeNone => "None"@,
                ParameterValueType::TypeBool => "Bool"@,
                ParameterValueType::TypeI32 => "I32"@,
                ParameterValueType::TypeU32 => "U32"@,
                ParameterValueType::TypeI64 => "I64"@,
                ParameterValueType::TypeU64 => "U64"@,
                ParameterValueType::TypeF32 => "F32"@,
                ParameterValueType::TypeF64 => "F64"@,
                ParameterValueType::TypeString => "String"@,
                ParameterValueType::TypeBlob => "Blob"@,
                ParameterValueType::TypeEnum(_) => "I32"@,
            },
    {
        match &self.table[id].value_type {
            ParameterValueType::TypeNone => String::from_str("None"),
            ParameterValueType::TypeBool => String::from_str("Bool"),
            ParameterValueType::TypeI32 => String::from_str("I32"),
            ParameterValueType::TypeU32 => String::from_str("U32"),
            ParameterValueType::TypeI64 => String::from_str("I64"),
            ParameterValueType::TypeU64 => String::from_str("U64"),
            ParameterValueType::TypeF32 => String::from_str("F32"),
            ParameterValueType::TypeF64 => String::from_str("F64"),
            ParameterValueType::TypeString => String::from_str("String"),
            ParameterValueType::TypeBlob => String::from_str("Blob"),
            ParameterValueType::TypeEnum(_) => String::from_str("I32"),
        }
    }

    /// The names of all parameters, in id order.
    pub fn get_parameter_names(&self) -> (r: Vec<String>)
        requires
            self.wf(),
        ensures
            r@.len() == self.table@.len(),
            forall|j: int|
                0 <= j < r@.len() ==> (#[trigger] r@[j])@ == self.table@[j].name_id@,
    {
        let n: usize = self.table.len();
        let mut out: Vec<String> = Vec::new();
        let mut i: usize = 0;
        while i < n
            invariant
                n == self.table@.len(),
                i <= n,
                out@.len() == i,
                forall|j: int| 0 <= j < i ==> (#[trigger] out@[j])@ == self.table@[j].name_id@,
            decreases n - i,
        {
            out.push(self.table[i].name_id.clone());
            i = i + 1;
        }
        out
    }

    /// How many parameters the table declares.
    pub fn get_parameters_number(&self) -> (r: usize)
        ensures
            r == self.table@.len(),
    {
        self.table.len()
    }

    /// The id of the parameter carrying `name`, if any.
    pub fn get_parameter_id_from_name(&self, name: String) -> (r: Option<usize>)
        requires
            self.wf(),
        ensures
            match r {
                Option::Some(i) => spec_lookup_name(self.table@, name@) == Option::Some(i as int)
                    && i < self.table@.len(),
                Option::None => spec_lookup_name(self.table@, name@) is None,
            },
    {
        lookup_name(&self.table, &name)
    }

    /// The text form of a value: decimals for the numeric kinds,
    /// `true`/`false` for booleans, the string itself, base-64 for blob
    /// bytes. A float, none or path value has no text form here; the rim
    /// renders floats itself.
    pub fn value_to_string(value: &ParameterValue) -> (r: Option<String>)
        ensures
            match r {
                Option::Some(s) => spec_value_string(value@) == Option::Some(s@),
                Option::None => spec_value_string(value@) is None,
            },
    {
        match value {
            ParameterValue::ValBool(b) => Option::Some(crate::text::bool_to_string(*b)),
            ParameterValue::ValI32(x) => Option::Some(crate::text::i32_to_string(*x)),
            ParameterValue::ValU32(x) => Option::Some(crate::text::u32_to_string(*x)),
            ParameterValue::ValI64(x) => Option::Some(crate::text::i64_to_string(*x)),
            ParameterValue::ValU64(x) => Option::Some(crate::text::u64_to_string(*x)),
            ParameterValue::ValString(s) => Option::Some(s.clone()),
            ParameterValue::ValBlob(b) => {
                if b.len() <= usize::MAX / 4 {
                    Option::Some(crate::b64::base64_encode(b))
                } else {
                    // a blob too large for its encoding to fit in memory
                    // has no text form
                    Option::None
                }
            },
            ParameterValue::ValEnum(x) => Option::Some(crate::text::i32_to_string(*x)),
            ParameterValue::ValF32(_) | ParameterValue::ValF64(_) => Option::None,
            ParameterValue::ValNone | ParameterValue::ValPath(_) => Option::None,
        }
    }

    /// Convert text into a value of parameter `id`'s declared type, as
    /// the write surfaces accept it: decimals for the numeric kinds,
    /// `true`/`1`/`false`/`0` for booleans, base-64 for blobs, the text
    /// itself for strings. Text that does not denote a value of the type
    /// is refused; a float type is left to the rim.
    pub fn set_from_string(&self, id: usize, value: &str) -> (r: Result<
        ParameterValue,
        EconfError,
    >)
        requires
            self.wf(),
            id < self.table@.len(),
        ensures
            spec_converted_from_string(self.table@[id as int].value_type, value@, r),
    {
        match &self.table[id].value_type {
            ParameterValueType::TypeBool => match crate::text::parse_bool(value) {
                Option::Some(b) => Ok(ParameterValue::ValBool(b)),
                Option::None => Err(EconfError::ErrTypeMismatch),
            },
            ParameterValueType::TypeI32 => match crate::text::parse_i32(value) {
                Option::Some(x) => Ok(ParameterValue::ValI32(x)),
                Option::None => Err(EconfError::ErrTypeMismatch),
            },
            ParameterValueType::TypeU32 => match crate::text::parse_u32(value) {
                Option::Some(x) => Ok(ParameterValue::ValU32(x)),
                Option::None => Err(EconfError::ErrTypeMismatch),
            },
            ParameterValueType::TypeI64 => match crate::text::parse_i64(value) {
                Option::Some(x) => Ok(ParameterValue::ValI64(x)),
                Option::None => Err(EconfError::ErrTypeMismatch),
            },
            ParameterValueType::TypeU64 => match crate::text::parse_u64(value) {
                Option::Some(x) => Ok(ParameterValue::ValU64(x)),
                Option::None => Err(EconfError::ErrTypeMismatch),
            },
            ParameterValueType::TypeF32 | ParameterValueType::TypeF64 => Err(
                EconfError::ErrUnsupported,
            ),
            ParameterValueType::TypeString => Ok(ParameterValue::ValString(value.to_owned())),
            ParameterValueType::TypeBlob => match crate::b64::base64_decode(value) {
                Option::Some(bytes) => Ok(ParameterValue::ValBlob(bytes)),
                Option::None => Err(EconfError::ErrTypeMismatch),
            },
            ParameterValueType::TypeEnum(_) => match crate::text::parse_i32(value) {
                Option::Some(x) => Ok(ParameterValue::ValEnum(x)),
                Option::None => Err(EconfError::ErrTypeMismatch),
            },
            ParameterValueType::TypeNone => Ok(ParameterValue::ValNone),
        }
    }

    /// Convert a scalar taken from a JSON document into a value of
    /// parameter `id`'s declared type: integers by their numeric reading
    /// (truncated to the declared width, as the reflective surface has
    /// always done), booleans and strings as themselves, blobs from
    /// base-64 text, doubles by their carried bit pattern. A scalar of
    /// the wrong shape is refused; a 32-bit float needs a narrowing the
    /// rim performs.
    pub fn set_from_json(&self, id: usize, value: &JsonScalar) -> (r: Result<
        ParameterValue,
        EconfError,
    >)
        requires
            self.wf(),
            id < self.table@.len(),
        ensures
            spec_converted_from_json(self.table@[id as int].value_type, *value, r),
    {
        match &self.table[id].value_type {
            ParameterValueType::TypeBool => match value {
                JsonScalar::JsBool(b) => Ok(ParameterValue::ValBool(*b)),
                _ => Err(EconfError::ErrTypeMismatch),
            },
            ParameterValueType::TypeI32 => match value {
                JsonScalar::JsNumber { int_val: Option::Some(i), .. } => Ok(
                    ParameterValue::ValI32(#[verifier::truncate] (*i as i32)),
                ),
                _ => Err(EconfError::ErrTypeMismatch),
            },
            ParameterValueType::TypeU32 => match value {
                JsonScalar::JsNumber { uint_val: Option::Some(u), .. } => Ok(
                    ParameterValue::ValU32(#[verifier::truncate] (*u as u32)),
                ),
                _ => Err(EconfError::ErrTypeMismatch),
            },
            ParameterValueType::TypeI64 => match value {
                JsonScalar::JsNumber { int_val: Option::Some(i), .. } => Ok(
                    ParameterValue::ValI64(*i),
                ),
                _ => Err(EconfError::ErrTypeMismatch),
            },
            ParameterValueType::TypeU64 => match value {
                JsonScalar::JsNumber { uint_val: Option::Some(u), .. } => Ok(
                    ParameterValue::ValU64(*u),
                ),
                _ => Err(EconfError::ErrTypeMismatch),
            },
            ParameterValueType::TypeF32 => Err(EconfError::ErrUnsupported),
            ParameterValueType::TypeF64 => match value {
                JsonScalar::JsNumber { float_bits: Option::Some(bits), .. } => Ok(
                    ParameterValue::ValF64(*bits),
                ),
                _ => Err(EconfError::ErrTypeMismatch),
            },
            ParameterValueType::TypeString => match value {
                JsonScalar::JsText(s) => Ok(ParameterValue::ValString(s.clone())),
                _ => Err(EconfError::ErrTypeMismatch),
            },
            ParameterValueType::TypeBlob => match value {
                JsonScalar::JsText(s) => match crate::b64::base64_decode(s.as_str()) {
                    Option::Some(bytes) => Ok(ParameterValue::ValBlob(bytes)),
                    Option::None => Err(EconfError::ErrTypeMismatch),
                },
                _ => Err(EconfError::ErrTypeMismatch),
            },
            ParameterValueType::TypeEnum(_) => match value {
                JsonScalar::JsNumber { int_val: Option::Some(i), .. } => Ok(
                    ParameterValue::ValEnum(#[verifier::truncate] (*i as i32)),
                ),
                _ => Err(EconfError::ErrTypeMismatch),
            },
            ParameterValueType::TypeNone => Ok(ParameterValue::ValNone),
        }
    }

    /// Clear every cache slot.
    fn invalidate_all(&mut self)
        requires
            old(self).wf(),
        ensures
            final(self).wf(),
            final(self).table == old(self).table,
            final(self).groups == old(self).groups,
            final(self).database == old(self).database,
            final(self).callbacks == old(self).callbacks,
            final(self).pending_notifications == old(self).pending_notifications,
            final(self).cache@.len() == old(self).cache@.len(),
            forall|j: int|
                0 <= j < final(self).cache@.len() ==> (#[trigger] final(self).cache@[j]) is None,
    {
        let count: usize = self.cache.len();
        let mut i: usize = 0;
        while i < count
            invariant
                count == self.cache@.len(),
                i <= count,
                self.table == old(self).table,
                self.groups == old(self).groups,
                self.database == old(self).database,
                self.callbacks == old(self).callbacks,
                self.pending_notifications == old(self).pending_notifications,
                self.cache@.len() == old(self).cache@.len(),
                forall|j: int| 0 <= j < i ==> (#[trigger] self.cache@[j]) is None,
            decreases count - i,
        {
            self.cache.set(i, Option::None);
            i = i + 1;
        }
    }
}

/// The name paired with index `i` of an allowed-values rule, empty where
/// the rule carries none.
pub open spec fn spec_name_at(names: Seq<String>, i: int) -> Seq<char> {
    if 0 <= i < names.len() {
        names[i]@
    } else {
        Seq::empty()
    }
}

/// The rendering of one allowed value: its text, and as its display name
/// the paired enumerator name for an enum value, the text itself
/// otherwise. Nothing renders when the value has no text form.
pub open spec fn spec_allowed_item(value: ParameterValue, name: Seq<char>) -> Option<Seq<char>> {
    match spec_value_string(value@) {
        Option::Some(vs) => Option::Some(
            "{\"value\":\""@ + vs + "\",\"name\":\""@ + (
            if value@ is MEnum {
                name
            } else {
                vs
            }) + "\"}"@,
        ),
        Option::None => Option::None,
    }
}

/// The comma-joined renderings of the allowed values from index `i` on.
pub open spec fn spec_allowed_list(
    values: Seq<ParameterValue>,
    names: Seq<String>,
    i: int,
) -> Option<Seq<char>>
    decreases values.len() - i,
{
    if i < 0 || i >= values.len() {
        Option::Some(Seq::empty())
    } else {
        match (spec_allowed_item(values[i], spec_name_at(names, i)), spec_allowed_list(
            values,
            names,
            i + 1,
        )) {
            (Option::Some(item), Option::Some(rest)) => Option::Some(
                (if i > 0 {
                    seq![',']
                } else {
                    Seq::empty()
                }) + item + rest,
            ),
            _ => Option::None,
        }
    }
}

proof fn lemma_allowed_list_none(values: Seq<ParameterValue>, names: Seq<String>, j: int, i: int)
    requires
        0 <= j <= i,
        spec_allowed_list(values, names, i) is None,
    ensures
        spec_allowed_list(values, names, j) is None,
    decreases i - j,
{
    if j < i {
        lemma_allowed_list_none(values, names, j + 1, i);
    }
}

/// The rendering of a validation rule as the info surface reports it.
/// Nothing renders when a bound or allowed value has no text form.
pub open spec fn spec_validation_json(m: ValidationMethod) -> Option<Seq<char>> {
    match m {
        ValidationMethod::NoValidation => Option::Some("\"none\""@),
        ValidationMethod::CustomCallback => Option::Some("\"custom\""@),
        ValidationMethod::Range { min, max } => match (spec_value_string(min@), spec_value_string(
            max@,
        )) {
            (Option::Some(a), Option::Some(b)) => Option::Some(
                "{\"range\":{\"min\":\""@ + a + "\",\"max\":\""@ + b + "\"}}"@,
            ),
            _ => Option::None,
        },
        ValidationMethod::AllowedValues { values, names } => match spec_allowed_list(
            values@,
            names@,
            0,
        ) {
            Option::Some(items) => Option::Some("{\"allowed_values\":["@ + items + "]}"@),
            Option::None => Option::None,
        },
    }
}

impl InterfaceInstance {
    /// The validation rule of parameter `id`, rendered as the info
    /// surface reports it; nothing when a bound or allowed value has no
    /// text form (the rim renders float rules itself).
    pub fn get_validation_json(&self, id: usize) -> (r: Option<String>)
        requires
            self.wf(),
            id < self.table@.len(),
        ensures
            match r {
                Option::Some(s) => spec_validation_json(self.table@[id as int].validation)
                    == Option::Some(s@),
                Option::None => spec_validation_json(self.table@[id as int].validation) is None,
            },
    {
        match &self.table[id].validation {
            ValidationMethod::NoValidation => Option::Some(String::from_str("\"none\"")),
            ValidationMethod::CustomCallback => Option::Some(String::from_str("\"custom\"")),
            ValidationMethod::Range { min, max } => {
                let min_s = match Self::value_to_string(min) {
                    Option::Some(s) => s,
                    Option::None => {
                        return Option::None;
                    },
                };
                let max_s = match Self::value_to_string(max) {
                    Option::Some(s) => s,
                    Option::None => {
                        return Option::None;
                    },
                };
                let mut out = String::from_str("{\"range\":{\"min\":\"");
                out.append(min_s.as_str());
                out.append("\",\"max\":\"");
                out.append(max_s.as_str());
                out.append("\"}}");
                proof {
                    assert(out@ =~= "{\"range\":{\"min\":\""@ + min_s@ + "\",\"max\":\""@
                        + max_s@ + "\"}}"@);
                }
                Option::Some(out)
            },
            ValidationMethod::AllowedValues { values, names } => {
                let n: usize = values.len();
                let mut items = String::new();
                let mut i: usize = n;
                proof {
                    assert(spec_allowed_list(values@, names@, n as int) == Option::Some(
                        Seq::<char>::empty(),
                    ));
                    assert(items@ =~= Seq::<char>::empty());
                }
                while i > 0
                    invariant
                        id < self.table@.len(),
                        self.table@[id as int].validation == (ValidationMethod::AllowedValues {
                            values: *values,
                            names: *names,
                        }),
                        n == values@.len(),
                        i <= n,
                        spec_allowed_list(values@, names@, i as int) == Option::Some(items@),
                    decreases i,
                {
                    i = i - 1;
                    let value_s = match Self::value_to_string(&values[i]) {
                        Option::Some(s) => s,
                        Option::None => {
                            proof {
                                assert(spec_allowed_list(values@, names@, i as int) is None);
                                lemma_allowed_list_none(values@, names@, 0, i as int);
                            }
                            return Option::None;
                        },
                    };
                    let is_enum_value = matches!(values[i], ParameterValue::ValEnum(_));
                    let mut piece = String::new();
                    if i > 0 {
                        piece.append(",");
                    }
                    piece.append("{\"value\":\"");
                    piece.append(value_s.as_str());
                    piece.append("\",\"name\":\"");
                    if is_enum_value && i < names.len() {
                        piece.append(names[i].as_str());
                    } else if is_enum_value {
                        // an enum value with no paired name displays as
                        // the empty name
                    } else {
                        piece.append(value_s.as_str());
                    }
                    piece.append("\"}");
                    let ghost rest = items@;
                    piece.append(items.as_str());
                    items = piece;
                    proof {
                        reveal_strlit(",");
                        let vs = spec_value_string(values@[i as int]@)->0;
                        assert(vs == value_s@);
                        let namepart = if values@[i as int]@ is MEnum {
                            spec_name_at(names@, i as int)
                        } else {
                            vs
                        };
                        let item = "{\"value\":\""@ + vs + "\",\"name\":\""@ + namepart
                            + "\"}"@;
                        assert(spec_allowed_item(values@[i as int], spec_name_at(names@, i as int))
                            == Option::Some(item));
                        assert(items@ =~= (
                        if i > 0 {
                            seq![',']
                        } else {
                            Seq::<char>::empty()
                        }) + item + rest);
                    }
                }
                let mut out = String::from_str("{\"allowed_values\":[");
                out.append(items.as_str());
                out.append("]}");
                proof {
                    assert(out@ =~= "{\"allowed_values\":["@ + items@ + "]}"@);
                }
                Option::Some(out)
            },
        }
    }
}

/// Name bijectivity: in a well-formed table, looking up the name of any
/// parameter finds exactly that parameter's id.
pub proof fn lemma_name_id_bijection(table: Seq<Parameter>, id: int)
    requires
        spec_params_wf(table),
        0 <= id < table.len(),
    ensures
        spec_lookup_name(table, table[id].name_id@) == Option::Some(id),
    decreases id,
{
    if id == 0 {
    } else {
        assert(table[0].name_id@ != table[id].name_id@);
        let sub = table.skip(1);
        assert forall|i: int| 0 <= i < sub.len() implies spec_param_wf(
            &(#[trigger] sub[i]),
        ) by {
            assert(sub[i] == table[i + 1]);
        }
        assert forall|i: int, j: int| 0 <= i < j < sub.len() implies (
        #[trigger] sub[i]).name_id@ != (#[trigger] sub[j]).name_id@ by {
            assert(sub[i] == table[i + 1]);
            assert(sub[j] == table[j + 1]);
        }
        assert(sub[id - 1] == table[id]);
        lemma_name_id_bijection(sub, id - 1);
    }
}

/// Read after write: a set accepted for parameter `id` followed by a get
/// of `id` without a forced refresh returns exactly the written value.
pub proof fn lemma_read_after_write(
    pre: InterfaceInstance,
    mid: InterfaceInstance,
    post: InterfaceInstance,
    id: usize,
    value: ParameterValue,
    written: ParameterValue,
    got: ParameterValue,
)
    requires
        id < pre.table@.len(),
        !pre.table@[id as int].is_const,
        spec_type_matches(pre.table@[id as int].value_type, value@),
        spec_accepts(pre.table@[id as int].validation, value@),
        InterfaceInstance::spec_set_post(pre, mid, id, value@, Ok(written)),
        InterfaceInstance::spec_get_post(mid, post, id, false, Ok(got)),
    ensures
        got@ == value@,
{
}

/// A set performs at most one durable write and owes at most one
/// notification, and owes none when it wrote nothing.
pub proof fn lemma_set_writes_at_most_once(
    pre: InterfaceInstance,
    post: InterfaceInstance,
    id: usize,
    value: crate::value::ValueModel,
    r: Result<ParameterValue, EconfError>,
)
    requires
        InterfaceInstance::spec_set_post(pre, post, id, value, r),
    ensures
        post.database.durable_writes@ <= pre.database.durable_writes@ + 1,
        post.pending_notifications@.len() <= pre.pending_notifications@.len() + 1,
        post.database.durable_writes@ == pre.database.durable_writes@
            ==> post.pending_notifications@ == pre.pending_notifications@,
{
}

/// Const immutability: every set of a constant parameter is refused and
/// changes nothing, so its value keeps reading as before.
pub proof fn lemma_const_immutable(
    pre: InterfaceInstance,
    post: InterfaceInstance,
    id: usize,
    value: crate::value::ValueModel,
    r: Result<ParameterValue, EconfError>,
)
    requires
        InterfaceInstance::spec_set_post(pre, post, id, value, r),
        id < pre.table@.len(),
        pre.table@[id as int].is_const,
    ensures
        r == Err::<ParameterValue, EconfError>(EconfError::ErrConst),
        post == pre,
{
}

/// Validation decides acceptance: a typed, non-constant write is refused
/// as invalid exactly when the parameter's rule refuses the value; an
/// accepted value is never refused for validation.
pub proof fn lemma_validation_decides(
    pre: InterfaceInstance,
    post: InterfaceInstance,
    id: usize,
    value: crate::value::ValueModel,
    r: Result<ParameterValue, EconfError>,
)
    requires
        InterfaceInstance::spec_set_post(pre, post, id, value, r),
        id < pre.table@.len(),
        !pre.table@[id as int].is_const,
        spec_type_matches(pre.table@[id as int].value_type, value),
    ensures
        !spec_accepts(pre.table@[id as int].validation, value) ==> r == Err::<
            ParameterValue,
            EconfError,
        >(EconfError::ErrValidation) && post == pre,
        spec_accepts(pre.table@[id as int].validation, value) ==> r != Err::<
            ParameterValue,
            EconfError,
        >(EconfError::ErrValidation),
{
}

} // verus!
