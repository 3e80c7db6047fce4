//! Parameter descriptors, groups, and the validation rules a write must
//! pass.

use vstd::prelude::*;
use vstd::string::StrSliceExecFns;
use vstd::string::StringExecFns;

use crate::value::{
    spec_f32_order_key, spec_f64_order_key, spec_type_matches, value_eq, ParameterValue,
    ParameterValueType, ValueModel,
};

verus! {

/// How a candidate value for a parameter is validated.
pub enum ValidationMethod {
    NoValidation,
    Range { min: ParameterValue, max: ParameterValue },
    AllowedValues { values: Vec<ParameterValue>, names: Vec<String> },
    CustomCallback,
}

/// One parameter descriptor: its declared type, default, canonical
/// `"<group>@<field>"` name, validation rule and flags.
pub struct Parameter {
    pub value_type: ParameterValueType,
    pub value_default: ParameterValue,
    pub name_id: String,
    pub validation: ValidationMethod,
    pub comment: String,
    pub title: String,
    pub is_const: bool,
    pub tags: Vec<String>,
    pub runtime: bool,
    pub readonly: bool,
    pub internal: bool,
}

/// A top-level namespace partition of the parameter table.
pub struct Group {
    pub name: String,
    pub comment: String,
    pub title: String,
}

/// Numeric order between two values of the same scalar variant; floats are
/// ordered by their IEEE total order. Other pairings are unordered.
pub open spec fn spec_scalar_le(a: ValueModel, b: ValueModel) -> bool {
    match (a, b) {
        (ValueModel::MI32(x), ValueModel::MI32(y)) => x <= y,
        (ValueModel::MU32(x), ValueModel::MU32(y)) => x <= y,
        (ValueModel::MI64(x), ValueModel::MI64(y)) => x <= y,
        (ValueModel::MU64(x), ValueModel::MU64(y)) => x <= y,
        (ValueModel::MF32(x), ValueModel::MF32(y)) => spec_f32_order_key(x)
            <= spec_f32_order_key(y),
        (ValueModel::MF64(x), ValueModel::MF64(y)) => spec_f64_order_key(x)
            <= spec_f64_order_key(y),
        _ => false,
    }
}

/// Decide [`spec_scalar_le`] on two values.
pub fn scalar_le(a: &ParameterValue, b: &ParameterValue) -> (r: bool)
    ensures
        r == spec_scalar_le(a@, b@),
{
    match (a, b) {
        (ParameterValue::ValI32(x), ParameterValue::ValI32(y)) => *x <= *y,
        (ParameterValue::ValU32(x), ParameterValue::ValU32(y)) => *x <= *y,
        (ParameterValue::ValI64(x), ParameterValue::ValI64(y)) => *x <= *y,
        (ParameterValue::ValU64(x), ParameterValue::ValU64(y)) => *x <= *y,
        (ParameterValue::ValF32(x), ParameterValue::ValF32(y)) => crate::value::f32_order_key(*x)
            <= crate::value::f32_order_key(*y),
        (ParameterValue::ValF64(x), ParameterValue::ValF64(y)) => crate::value::f64_order_key(*x)
            <= crate::value::f64_order_key(*y),
        _ => false,
    }
}

/// The declared types on which `Range` validation is meaningful.
pub open spec fn spec_is_ordered_type(t: ParameterValueType) -> bool {
    ||| t is TypeI32
    ||| t is TypeU32
    ||| t is TypeI64
    ||| t is TypeU64
    ||| t is TypeF32
    ||| t is TypeF64
}

/// Whether validation rule `m` accepts value `v`: a range accepts the
/// values between its bounds, an allowed-values list its members, and the
/// other rules accept everything (a custom hook is deferred to run time).
pub open spec fn spec_accepts(m: ValidationMethod, v: ValueModel) -> bool {
    match m {
        ValidationMethod::NoValidation => true,
        ValidationMethod::Range { min, max } => spec_scalar_le(min@, v) && spec_scalar_le(
            v,
            max@,
        ),
        ValidationMethod::AllowedValues { values, names } => exists|i: int|
            0 <= i < values@.len() && (#[trigger] values@[i])@ == v,
        ValidationMethod::CustomCallback => true,
    }
}

impl ValidationMethod {
    /// Decide whether this rule accepts `v`.
    pub fn accepts(&self, v: &ParameterValue) -> (r: bool)
        ensures
            r == spec_accepts(*self, v@),
    {
        match self {
            ValidationMethod::NoValidation => true,
            ValidationMethod::Range { min, max } => scalar_le(min, v) && scalar_le(v, max),
            ValidationMethod::AllowedValues { values, names } => {
                let n: usize = values.len();
                let mut i: usize = 0;
                let mut found = false;
                while i < n
                    invariant
                        n == values@.len(),
                        i <= n,
                        found == exists|j: int|
                            0 <= j < i && (#[trigger] values@[j])@ == v@,
                    decreases n - i,
                {
                    if value_eq(&values[i], v) {
                        found = true;
                        proof {
                            assert(0 <= i < values@.len() && (values@[i as int])@ == v@);
                        }
                    }
                    i = i + 1;
                }
                found
            },
            ValidationMethod::CustomCallback => true,
        }
    }
}

/// Duplicate a value, keeping its model.
impl ParameterValue {
    pub fn duplicate(&self) -> (r: ParameterValue)
        ensures
            r@ == self@,
    {
        match self {
            ParameterValue::ValNone => ParameterValue::ValNone,
            ParameterValue::ValBool(b) => ParameterValue::ValBool(*b),
            ParameterValue::ValI32(v) => ParameterValue::ValI32(*v),
            ParameterValue::ValU32(v) => ParameterValue::ValU32(*v),
            ParameterValue::ValI64(v) => ParameterValue::ValI64(*v),
            ParameterValue::ValU64(v) => ParameterValue::ValU64(*v),
            ParameterValue::ValF32(v) => ParameterValue::ValF32(*v),
            ParameterValue::ValF64(v) => ParameterValue::ValF64(*v),
            ParameterValue::ValString(s) => ParameterValue::ValString(s.clone()),
            ParameterValue::ValBlob(b) => ParameterValue::ValBlob(clone_bytes(b)),
            ParameterValue::ValEnum(v) => ParameterValue::ValEnum(*v),
            ParameterValue::ValPath(p) => ParameterValue::ValPath(p.clone()),
        }
    }
}

/// Copy a byte vector, keeping its contents.
pub fn clone_bytes(v: &Vec<u8>) -> (r: Vec<u8>)
    ensures
        r@ == v@,
{
    let mut out: Vec<u8> = Vec::new();
    let n: usize = v.len();
    let mut i: usize = 0;
    while i < n
        invariant
            n == v@.len(),
            i <= n,
            out@ =~= v@.take(i as int),
        decreases n - i,
    {
        out.push(v[i]);
        i = i + 1;
    }
    proof {
        assert(v@.take(n as int) =~= v@);
    }
    out
}

/// Well-formedness of one descriptor: the default is of the declared type
/// (or a path standing for blob bytes), and the validation rule fits the
/// type — range bounds of the declared ordered type and in order, allowed
/// values of the declared type, and enum types validated only by membership.
pub open spec fn spec_param_wf(p: &Parameter) -> bool {
    &&& p.name_id@.len() > 0
    &&& (spec_type_matches(p.value_type, p.value_default@) || (p.value_type is TypeBlob
        && p.value_default@ is MPath))
    &&& match p.validation {
        ValidationMethod::NoValidation => true,
        ValidationMethod::Range { min, max } => {
            &&& spec_is_ordered_type(p.value_type)
            &&& spec_type_matches(p.value_type, min@)
            &&& spec_type_matches(p.value_type, max@)
            &&& spec_scalar_le(min@, max@)
        },
        ValidationMethod::AllowedValues { values, names } => {
            &&& forall|i: int|
                0 <= i < values@.len() ==> spec_type_matches(
                    p.value_type,
                    #[trigger] values@[i]@,
                )
            &&& (p.value_type is TypeEnum ==> names@.len() == values@.len())
        },
        ValidationMethod::CustomCallback => true,
    }
}

/// One enumerator of an enum-typed field: its schema name and number.
pub struct EnumeratorDescriptor {
    pub name: String,
    pub number: i32,
}

/// The validation rule a field declares, before compilation.
pub enum ValidationKind {
    KindNone,
    KindRange,
    KindAllowedValues,
    KindCustomCallback,
}

/// One field of the schema description: the reflective view of a parameter
/// declaration, with its scalar options.
pub struct FieldDescriptor {
    pub name: String,
    pub value_type: ParameterValueType,
    pub enumerators: Vec<EnumeratorDescriptor>,
    pub default_value: Option<ParameterValue>,
    pub validation: ValidationKind,
    pub min: Option<ParameterValue>,
    pub max: Option<ParameterValue>,
    pub allowed_values: Option<Vec<ParameterValue>>,
    pub title: Option<String>,
    pub comment: Option<String>,
    pub is_const: bool,
    pub runtime: bool,
    pub readonly: bool,
    pub internal: bool,
    pub tags: Vec<String>,
}

/// One group of the schema description, with its fields in declaration
/// order.
pub struct GroupDescriptor {
    pub name: String,
    pub title: Option<String>,
    pub comment: Option<String>,
    pub fields: Vec<FieldDescriptor>,
}

/// Why a schema description was refused.
#[derive(Clone, Copy, Debug, PartialEq, Eq, Structural)]
pub enum SchemaError {
    BadGroupName,
    BadFieldName,
    MissingDefault,
    DefaultTypeMismatch,
    MissingRangeBound,
    RangeTypeMismatch,
    RangeUnordered,
    RangeNotOrderedType,
    MissingAllowedValues,
    AllowedValueTypeMismatch,
    EnumValidationUnsupported,
    DuplicateName,
}

/// A name part is acceptable when it is nonempty and free of the `'@'`
/// separator, so that the parameter namespace keeps exactly two levels.
pub open spec fn spec_name_ok(n: Seq<char>) -> bool {
    n.len() > 0 && forall|i: int| 0 <= i < n.len() ==> #[trigger] n[i] != '@'
}

/// The canonical parameter name formed from a group and a field name.
pub open spec fn spec_name_id(g: Seq<char>, f: Seq<char>) -> Seq<char> {
    g + seq!['@'] + f
}

/// Two declared types are the same when they are the same variant, with
/// equal enum names.
pub open spec fn spec_vt_eq(a: ParameterValueType, b: ParameterValueType) -> bool {
    match (a, b) {
        (ParameterValueType::TypeNone, ParameterValueType::TypeNone) => true,
        (ParameterValueType::TypeBool, ParameterValueType::TypeBool) => true,
        (ParameterValueType::TypeI32, ParameterValueType::TypeI32) => true,
        (ParameterValueType::TypeU32, ParameterValueType::TypeU32) => true,
        (ParameterValueType::TypeI64, ParameterValueType::TypeI64) => true,
        (ParameterValueType::TypeU64, ParameterValueType::TypeU64) => true,
        (ParameterValueType::TypeF32, ParameterValueType::TypeF32) => true,
        (ParameterValueType::TypeF64, ParameterValueType::TypeF64) => true,
        (ParameterValueType::TypeString, ParameterValueType::TypeString) => true,
        (ParameterValueType::TypeBlob, ParameterValueType::TypeBlob) => true,
        (ParameterValueType::TypeEnum(x), ParameterValueType::TypeEnum(y)) => x@ == y@,
        _ => false,
    }
}

/// The checks one field must pass to compile: a default of the declared
/// type, and a validation declaration that fits the type.
pub open spec fn spec_field_ok(f: FieldDescriptor) -> bool {
    &&& spec_name_ok(f.name@)
    &&& f.default_value is Some
    &&& (spec_type_matches(f.value_type, f.default_value->0@) || (f.value_type is TypeBlob
        && f.default_value->0@ is MPath))
    &&& if f.value_type is TypeEnum {
        f.validation is KindNone || f.validation is KindAllowedValues
    } else {
        match f.validation {
            ValidationKind::KindNone => true,
            ValidationKind::KindRange => {
                &&& spec_is_ordered_type(f.value_type)
                &&& f.min is Some
                &&& f.max is Some
                &&& spec_type_matches(f.value_type, f.min->0@)
                &&& spec_type_matches(f.value_type, f.max->0@)
                &&& spec_scalar_le(f.min->0@, f.max->0@)
            },
            ValidationKind::KindAllowedValues => {
                &&& f.allowed_values is Some
                &&& forall|i: int|
                    0 <= i < f.allowed_values->0@.len() ==> spec_type_matches(
                        f.value_type,
                        (#[trigger] f.allowed_values->0@[i])@,
                    )
            },
            ValidationKind::KindCustomCallback => true,
        }
    }
}

/// The validation rule compiled for a field: enum fields always validate by
/// membership in their enumerators; other fields keep what they declared.
pub open spec fn spec_compiled_validation(f: FieldDescriptor, v: ValidationMethod) -> bool {
    if f.value_type is TypeEnum {
        &&& v matches ValidationMethod::AllowedValues { values, names }
        &&& v->AllowedValues_values@.len() == f.enumerators@.len()
        &&& v->AllowedValues_names@.len() == f.enumerators@.len()
        &&& forall|i: int|
            0 <= i < f.enumerators@.len() ==> (#[trigger] v->AllowedValues_values@[i])@
                == ValueModel::MEnum(f.enumerators@[i].number)
        &&& forall|i: int|
            0 <= i < f.enumerators@.len() ==> (#[trigger] v->AllowedValues_names@[i])@
                == f.enumerators@[i].name@
    } else {
        match f.validation {
            ValidationKind::KindNone => v is NoValidation,
            ValidationKind::KindRange => {
                &&& v is Range
                &&& v->Range_min@ == f.min->0@
                &&& v->Range_max@ == f.max->0@
            },
            ValidationKind::KindAllowedValues => {
                &&& v is AllowedValues
                &&& v->AllowedValues_values@.len() == f.allowed_values->0@.len()
                &&& forall|i: int|
                    0 <= i < f.allowed_values->0@.len() ==> (
                    #[trigger] v->AllowedValues_values@[i])@ == f.allowed_values->0@[i]@
                &&& v->AllowedValues_names@.len() == 0
            },
            ValidationKind::KindCustomCallback => v is CustomCallback,
        }
    }
}

/// How a compiled descriptor relates to the group and field it came from.
pub open spec fn spec_compiled(gname: Seq<char>, f: FieldDescriptor, p: Parameter) -> bool {
    &&& p.name_id@ == spec_name_id(gname, f.name@)
    &&& spec_vt_eq(p.value_type, f.value_type)
    &&& p.value_default@ == f.default_value->0@
    &&& p.title@ == match f.title {
        Option::Some(t) => t@,
        Option::None => f.name@,
    }
    &&& p.comment@ == match f.comment {
        Option::Some(c) => c@,
        Option::None => Seq::<char>::empty(),
    }
    &&& p.is_const == f.is_const
    &&& p.runtime == f.runtime
    &&& p.readonly == f.readonly
    &&& p.internal == f.internal
    &&& p.tags@.len() == f.tags@.len()
    &&& forall|i: int| 0 <= i < f.tags@.len() ==> (#[trigger] p.tags@[i])@ == f.tags@[i]@
    &&& spec_compiled_validation(f, p.validation)
}

/// One group's own checks: a proper name, and every field acceptable.
pub open spec fn spec_group_ok(g: GroupDescriptor) -> bool {
    &&& spec_name_ok(g.name@)
    &&& forall|k: int| 0 <= k < g.fields@.len() ==> spec_field_ok(#[trigger] g.fields@[k])
}

/// The number of parameters declared before group `g`.
pub open spec fn spec_flat_base(gs: Seq<GroupDescriptor>, g: int) -> int
    decreases g,
{
    if g <= 0 {
        0
    } else {
        spec_flat_base(gs, g - 1) + gs[g - 1].fields@.len()
    }
}

/// A whole schema description is acceptable when every group and field is,
/// and no two declarations share a canonical name.
pub open spec fn spec_schema_ok(gs: Seq<GroupDescriptor>) -> bool {
    &&& forall|g: int| 0 <= g < gs.len() ==> spec_group_ok(#[trigger] gs[g])
    &&& forall|g1: int, k1: int, g2: int, k2: int|
        0 <= g1 < gs.len() && 0 <= k1 < gs[g1].fields@.len() && 0 <= g2 < gs.len() && 0 <= k2
            < gs[g2].fields@.len() && (g1 != g2 || k1 != k2) ==> spec_name_id(
            gs[g1].name@,
            (#[trigger] gs[g1].fields@[k1]).name@,
        ) != spec_name_id(gs[g2].name@, (#[trigger] gs[g2].fields@[k2]).name@)
}

/// A compiled table is well formed: every descriptor is, and no two share
/// a name.
pub open spec fn spec_params_wf(params: Seq<Parameter>) -> bool {
    &&& forall|i: int| 0 <= i < params.len() ==> spec_param_wf(&(#[trigger] params[i]))
    &&& forall|i: int, j: int|
        0 <= i < j < params.len() ==> (#[trigger] params[i]).name_id@ != (
        #[trigger] params[j]).name_id@
}

/// The compiled descriptors stand in declaration order, one per declared
/// field, each compiled from its declaration.
pub open spec fn spec_compiled_params(gs: Seq<GroupDescriptor>, params: Seq<Parameter>) -> bool {
    &&& params.len() == spec_flat_base(gs, gs.len() as int)
    &&& forall|g: int, k: int|
        0 <= g < gs.len() && 0 <= k < (#[trigger] gs[g]).fields@.len() ==> spec_compiled(
            gs[g].name@,
            #[trigger] gs[g].fields@[k],
            params[spec_flat_base(gs, g) + k],
        )
}

/// The compiled groups mirror the declared ones, titles defaulting to the
/// group name and comments to empty.
pub open spec fn spec_compiled_groups(gs: Seq<GroupDescriptor>, groups: Seq<Group>) -> bool {
    &&& groups.len() == gs.len()
    &&& forall|g: int|
        0 <= g < gs.len() ==> {
            &&& (#[trigger] groups[g]).name@ == gs[g].name@
            &&& groups[g].title@ == match gs[g].title {
                Option::Some(t) => t@,
                Option::None => gs[g].name@,
            }
            &&& groups[g].comment@ == match gs[g].comment {
                Option::Some(c) => c@,
                Option::None => Seq::<char>::empty(),
            }
        }
}

proof fn lemma_flat_base_mono(gs: Seq<GroupDescriptor>, a: int, b: int)
    requires
        0 <= a <= b,
    ensures
        spec_flat_base(gs, a) <= spec_flat_base(gs, b),
    decreases b - a,
{
    if a < b {
        lemma_flat_base_mono(gs, a, b - 1);
    }
}

/// Walks a schema description and compiles the parameter table.
pub struct SchemaManager {
    pub groups: Vec<GroupDescriptor>,
}

impl SchemaManager {
    /// Wrap a parsed schema description.
    pub fn new(groups: Vec<GroupDescriptor>) -> (r: SchemaManager)
        ensures
            r.groups == groups,
    {
        SchemaManager { groups }
    }

    /// Compile the table: assign dense ids in declaration order, derive
    /// each parameter's canonical name, validation rule and metadata, and
    /// refuse descriptions whose defaults, bounds or names do not fit.
    /// Succeeds exactly on acceptable descriptions; the resulting
    /// descriptors are well-formed, ordered as declared, and uniquely
    /// named.
    pub fn get_parameters(&self) -> (r: Result<(Vec<Parameter>, Vec<Group>), SchemaError>)
        ensures
            match r {
                Ok(out) => {
                    &&& spec_schema_ok(self.groups@)
                    &&& spec_compiled_params(self.groups@, out.0@)
                    &&& spec_compiled_groups(self.groups@, out.1@)
                    &&& spec_params_wf(out.0@)
                },
                Err(_) => !spec_schema_ok(self.groups@),
            },
    {
        let mut params: Vec<Parameter> = Vec::new();
        let mut groups_out: Vec<Group> = Vec::new();
        let gs = &self.groups;
        let gn: usize = gs.len();
        let ghost gseq = self.groups@;
        let mut g: usize = 0;
        while g < gn
            invariant
                gn == gseq.len(),
                gseq == self.groups@,
                gs == &self.groups,
                g <= gn,
                groups_out@.len() == g,
                forall|h: int|
                    0 <= h < g ==> {
                        &&& (#[trigger] groups_out@[h]).name@ == gseq[h].name@
                        &&& groups_out@[h].title@ == match gseq[h].title {
                            Option::Some(t) => t@,
                            Option::None => gseq[h].name@,
                        }
                        &&& groups_out@[h].comment@ == match gseq[h].comment {
                            Option::Some(c) => c@,
                            Option::None => Seq::<char>::empty(),
                        }
                    },
                forall|h: int| 0 <= h < g ==> spec_group_ok(#[trigger] gseq[h]),
                params@.len() == spec_flat_base(gseq, g as int),
                forall|h: int, k: int|
                    0 <= h < g && 0 <= k < (#[trigger] gseq[h]).fields@.len() ==> spec_compiled(
                        gseq[h].name@,
                        #[trigger] gseq[h].fields@[k],
                        params@[spec_flat_base(gseq, h) + k],
                    ),
                forall|i: int| 0 <= i < params@.len() ==> spec_param_wf(&(#[trigger] params@[i])),
            decreases gn - g,
        {
            let group = &gs[g];
            if !name_part_ok(&group.name) {
                return Err(SchemaError::BadGroupName);
            }
            let fields = &group.fields;
            let fn_count: usize = fields.len();
            let mut k: usize = 0;
            while k < fn_count
                invariant
                    gn == gseq.len(),
                    gseq == self.groups@,
                    gs == &self.groups,
                    g < gn,
                    group == &gseq[g as int],
                    fields == &gseq[g as int].fields,
                    fn_count == gseq[g as int].fields@.len(),
                    k <= fn_count,
                    spec_name_ok(gseq[g as int].name@),
                    forall|h: int| 0 <= h < g ==> spec_group_ok(#[trigger] gseq[h]),
                    forall|k2: int|
                        0 <= k2 < k ==> spec_field_ok(#[trigger] gseq[g as int].fields@[k2]),
                    params@.len() == spec_flat_base(gseq, g as int) + k,
                    forall|h: int, k2: int|
                        0 <= h < g && 0 <= k2 < (#[trigger] gseq[h]).fields@.len()
                            ==> spec_compiled(
                            gseq[h].name@,
                            #[trigger] gseq[h].fields@[k2],
                            params@[spec_flat_base(gseq, h) + k2],
                        ),
                    forall|k2: int|
                        0 <= k2 < k ==> spec_compiled(
                            gseq[g as int].name@,
                            #[trigger] gseq[g as int].fields@[k2],
                            params@[spec_flat_base(gseq, g as int) + k2],
                        ),
                    forall|i: int|
                        0 <= i < params@.len() ==> spec_param_wf(&(#[trigger] params@[i])),
                decreases fn_count - k,
            {
                let field = &fields[k];
                let p = match compile_field(&group.name, field) {
                    Ok(p) => p,
                    Err(e) => {
                        proof {
                            assert(!spec_field_ok(gseq[g as int].fields@[k as int]));
                            assert(!spec_group_ok(gseq[g as int]));
                        }
                        return Err(e);
                    },
                };
                let ghost old_params = params@;
                let ghost kept = k as int;
                params.push(p);
                k = k + 1;
                proof {
                    assert forall|h: int, k2: int|
                        0 <= h < g && 0 <= k2 < gseq[h].fields@.len() implies spec_compiled(
                        gseq[h].name@,
                        #[trigger] gseq[h].fields@[k2],
                        params@[spec_flat_base(gseq, h) + k2],
                    ) by {
                        assert(spec_flat_base(gseq, h + 1) == spec_flat_base(gseq, h)
                            + gseq[h].fields@.len());
                        lemma_flat_base_mono(gseq, 0, h);
                        lemma_flat_base_mono(gseq, h + 1, g as int);
                        assert(0 <= spec_flat_base(gseq, h) + k2 < old_params.len());
                        assert(params@[spec_flat_base(gseq, h) + k2] == old_params[spec_flat_base(
                            gseq,
                            h,
                        ) + k2]);
                    }
                    assert forall|k2: int|
                        0 <= k2 < k implies spec_compiled(
                        gseq[g as int].name@,
                        #[trigger] gseq[g as int].fields@[k2],
                        params@[spec_flat_base(gseq, g as int) + k2],
                    ) by {
                        lemma_flat_base_mono(gseq, 0, g as int);
                        if k2 < kept {
                            assert(0 <= spec_flat_base(gseq, g as int) + k2 < old_params.len());
                            assert(params@[spec_flat_base(gseq, g as int) + k2]
                                == old_params[spec_flat_base(gseq, g as int) + k2]);
                        } else {
                            assert(k2 == kept);
                            assert(spec_flat_base(gseq, g as int) + k2 == old_params.len());
                            assert(params@[spec_flat_base(gseq, g as int) + k2]
                                == params@[old_params.len() as int]);
                        }
                    }
                }
            }
            let gname = group.name.clone();
            let gtitle = match &group.title {
                Option::Some(t) => t.clone(),
                Option::None => group.name.clone(),
            };
            let gcomment = match &group.comment {
                Option::Some(c) => c.clone(),
                Option::None => String::new(),
            };
            groups_out.push(Group { name: gname, title: gtitle, comment: gcomment });
            g = g + 1;
        }
        // refuse a description in which two declarations share one name
        if let Option::Some(pair) = find_duplicate_name(&params) {
            proof {
                let (i, j) = (pair.0 as int, pair.1 as int);
                let (g1, k1) = lemma_flat_decompose(gseq, gn as int, i);
                let (g2, k2) = lemma_flat_decompose(gseq, gn as int, j);
                assert(params@[i].name_id@ == spec_name_id(
                    gseq[g1].name@,
                    gseq[g1].fields@[k1].name@,
                ));
                assert(params@[j].name_id@ == spec_name_id(
                    gseq[g2].name@,
                    gseq[g2].fields@[k2].name@,
                ));
                assert(g1 != g2 || k1 != k2);
                assert(!spec_schema_ok(gseq));
            }
            return Err(SchemaError::DuplicateName);
        }
        proof {
            assert(params@.len() == spec_flat_base(gseq, gseq.len() as int));
            assert forall|g1: int, k1: int, g2: int, k2: int|
                0 <= g1 < gseq.len() && 0 <= k1 < gseq[g1].fields@.len() && 0 <= g2 < gseq.len()
                    && 0 <= k2 < gseq[g2].fields@.len() && (g1 != g2 || k1 != k2) implies
                spec_name_id(gseq[g1].name@, (#[trigger] gseq[g1].fields@[k1]).name@)
                    != spec_name_id(gseq[g2].name@, (#[trigger] gseq[g2].fields@[k2]).name@) by {
                let i1 = spec_flat_base(gseq, g1) + k1;
                let i2 = spec_flat_base(gseq, g2) + k2;
                lemma_flat_index_distinct(gseq, g1, k1, g2, k2);
                assert(spec_flat_base(gseq, g1 + 1) == spec_flat_base(gseq, g1)
                    + gseq[g1].fields@.len());
                assert(spec_flat_base(gseq, g2 + 1) == spec_flat_base(gseq, g2)
                    + gseq[g2].fields@.len());
                lemma_flat_base_mono(gseq, g1 + 1, gseq.len() as int);
                lemma_flat_base_mono(gseq, g2 + 1, gseq.len() as int);
                lemma_flat_base_mono(gseq, 0, g1);
                lemma_flat_base_mono(gseq, 0, g2);
                assert(k1 < gseq[g1].fields@.len());
                assert(i1 < spec_flat_base(gseq, g1 + 1));
                assert(spec_flat_base(gseq, g1 + 1) <= spec_flat_base(gseq, gseq.len() as int));
                assert(0 <= i1 < params@.len());
                assert(0 <= i2 < params@.len());
                assert(params@[i1].name_id@ == spec_name_id(
                    gseq[g1].name@,
                    gseq[g1].fields@[k1].name@,
                ));
                assert(params@[i2].name_id@ == spec_name_id(
                    gseq[g2].name@,
                    gseq[g2].fields@[k2].name@,
                ));
                if i1 < i2 {
                    assert(params@[i1].name_id@ != params@[i2].name_id@);
                } else {
                    assert(params@[i2].name_id@ != params@[i1].name_id@);
                }
            }
        }
        Ok((params, groups_out))
    }
}

/// Find two descriptors carrying one name, if any.
fn find_duplicate_name(params: &Vec<Parameter>) -> (r: Option<(usize, usize)>)
    ensures
        match r {
            Option::Some(pair) => 0 <= pair.0 < pair.1 < params@.len()
                && params@[pair.0 as int].name_id@ == params@[pair.1 as int].name_id@,
            Option::None => forall|i: int, j: int|
                0 <= i < j < params@.len() ==> (#[trigger] params@[i]).name_id@ != (
                #[trigger] params@[j]).name_id@,
        },
{
    let pn: usize = params.len();
    let mut i: usize = 0;
    while i < pn
        invariant
            pn == params@.len(),
            i <= pn,
            forall|a: int, b: int|
                0 <= a < b < params@.len() && a < i ==> (#[trigger] params@[a]).name_id@ != (
                #[trigger] params@[b]).name_id@,
        decreases pn - i,
    {
        let mut j: usize = i + 1;
        while j < pn
            invariant
                pn == params@.len(),
                i < pn,
                i + 1 <= j <= pn,
                forall|b: int|
                    i < b < j ==> (#[trigger] params@[b]).name_id@ != params@[i as int].name_id@,
            decreases pn - j,
        {
            if params[j].name_id == params[i].name_id {
                proof {
                    assert(params@[i as int].name_id@ == params@[j as int].name_id@);
                }
                return Option::Some((i, j));
            }
            j = j + 1;
        }
        i = i + 1;
    }
    Option::None
}

/// The index of declaration `(g, k)` in the flat table decomposes back to
/// it: every flat index below the total belongs to exactly one declaration.
proof fn lemma_flat_decompose(gs: Seq<GroupDescriptor>, g_hi: int, i: int) -> (r: (int, int))
    requires
        0 <= g_hi <= gs.len(),
        0 <= i < spec_flat_base(gs, g_hi),
    ensures
        0 <= r.0 < g_hi,
        0 <= r.1 < gs[r.0].fields@.len(),
        spec_flat_base(gs, r.0) + r.1 == i,
    decreases g_hi,
{
    if i >= spec_flat_base(gs, g_hi - 1) {
        (g_hi - 1, i - spec_flat_base(gs, g_hi - 1))
    } else {
        lemma_flat_decompose(gs, g_hi - 1, i)
    }
}

/// Distinct declarations occupy distinct flat indices.
proof fn lemma_flat_index_distinct(
    gs: Seq<GroupDescriptor>,
    g1: int,
    k1: int,
    g2: int,
    k2: int,
)
    requires
        0 <= g1 < gs.len(),
        0 <= k1 < gs[g1].fields@.len(),
        0 <= g2 < gs.len(),
        0 <= k2 < gs[g2].fields@.len(),
        g1 != g2 || k1 != k2,
    ensures
        spec_flat_base(gs, g1) + k1 != spec_flat_base(gs, g2) + k2,
{
    if g1 == g2 {
    } else if g1 < g2 {
        assert(spec_flat_base(gs, g1 + 1) == spec_flat_base(gs, g1) + gs[g1].fields@.len());
        lemma_flat_base_mono(gs, g1 + 1, g2);
    } else {
        assert(spec_flat_base(gs, g2 + 1) == spec_flat_base(gs, g2) + gs[g2].fields@.len());
        lemma_flat_base_mono(gs, g2 + 1, g1);
    }
}

/// Decide [`spec_name_ok`]: nonempty and free of `'@'`.
pub fn name_part_ok(s: &String) -> (r: bool)
    ensures
        r == spec_name_ok(s@),
{
    let st = s.as_str();
    let n = st.unicode_len();
    if n == 0 {
        return false;
    }
    let mut i: usize = 0;
    while i < n
        invariant
            n == st@.len(),
            st@ == s@,
            i <= n,
            forall|j: int| 0 <= j < i ==> #[trigger] st@[j] != '@',
        decreases n - i,
    {
        if st.get_char(i) == '@' {
            return false;
        }
        i = i + 1;
    }
    true
}

proof fn lemma_vt_eq_props(a: ParameterValueType, b: ParameterValueType)
    requires
        spec_vt_eq(a, b),
    ensures
        forall|v: ValueModel| spec_type_matches(a, v) == spec_type_matches(b, v),
        spec_is_ordered_type(a) == spec_is_ordered_type(b),
        (a is TypeEnum) == (b is TypeEnum),
{
}

/// Compile one field into its descriptor, refusing what [`spec_field_ok`]
/// refuses and producing exactly the compiled form.
fn compile_field(group_name: &String, f: &FieldDescriptor) -> (r: Result<Parameter, SchemaError>)
    requires
        spec_name_ok(group_name@),
    ensures
        match r {
            Ok(p) => {
                &&& spec_field_ok(*f)
                &&& spec_compiled(group_name@, *f, p)
                &&& spec_param_wf(&p)
            },
            Err(_) => !spec_field_ok(*f),
        },
{
    if !name_part_ok(&f.name) {
        return Err(SchemaError::BadFieldName);
    }
    let default_value = match &f.default_value {
        Option::Some(d) => d.duplicate(),
        Option::None => {
            return Err(SchemaError::MissingDefault);
        },
    };
    let type_ok = f.value_type.matches_value(&default_value) || (matches!(
        f.value_type,
        ParameterValueType::TypeBlob,
    ) && matches!(default_value, ParameterValue::ValPath(_)));
    if !type_ok {
        return Err(SchemaError::DefaultTypeMismatch);
    }
    let validation: ValidationMethod = if matches!(f.value_type, ParameterValueType::TypeEnum(_)) {
        match f.validation {
            ValidationKind::KindNone | ValidationKind::KindAllowedValues => {},
            _ => {
                return Err(SchemaError::EnumValidationUnsupported);
            },
        }
        let en: usize = f.enumerators.len();
        let mut values: Vec<ParameterValue> = Vec::new();
        let mut names: Vec<String> = Vec::new();
        let mut i: usize = 0;
        while i < en
            invariant
                en == f.enumerators@.len(),
                i <= en,
                values@.len() == i,
                names@.len() == i,
                forall|j: int|
                    0 <= j < i ==> (#[trigger] values@[j])@ == ValueModel::MEnum(
                        f.enumerators@[j].number,
                    ),
                forall|j: int| 0 <= j < i ==> (#[trigger] names@[j])@ == f.enumerators@[j].name@,
            decreases en - i,
        {
            values.push(ParameterValue::ValEnum(f.enumerators[i].number));
            names.push(f.enumerators[i].name.clone());
            i = i + 1;
        }
        ValidationMethod::AllowedValues { values, names }
    } else {
        match f.validation {
            ValidationKind::KindNone => ValidationMethod::NoValidation,
            ValidationKind::KindCustomCallback => ValidationMethod::CustomCallback,
            ValidationKind::KindRange => {
                if !is_ordered_type(&f.value_type) {
                    return Err(SchemaError::RangeNotOrderedType);
                }
                let min = match &f.min {
                    Option::Some(v) => v.duplicate(),
                    Option::None => {
                        return Err(SchemaError::MissingRangeBound);
                    },
                };
                let max = match &f.max {
                    Option::Some(v) => v.duplicate(),
                    Option::None => {
                        return Err(SchemaError::MissingRangeBound);
                    },
                };
                if !f.value_type.matches_value(&min) || !f.value_type.matches_value(&max) {
                    return Err(SchemaError::RangeTypeMismatch);
                }
                if !scalar_le(&min, &max) {
                    return Err(SchemaError::RangeUnordered);
                }
                ValidationMethod::Range { min, max }
            },
            ValidationKind::KindAllowedValues => {
                let declared = match &f.allowed_values {
                    Option::Some(vs) => vs,
                    Option::None => {
                        return Err(SchemaError::MissingAllowedValues);
                    },
                };
                let an: usize = declared.len();
                let mut values: Vec<ParameterValue> = Vec::new();
                let mut i: usize = 0;
                while i < an
                    invariant
                        an == declared@.len(),
                        f.allowed_values is Some,
                        declared == f.allowed_values->0,
                        !(f.value_type is TypeEnum),
                        f.validation is KindAllowedValues,
                        i <= an,
                        values@.len() == i,
                        forall|j: int|
                            0 <= j < i ==> (#[trigger] values@[j])@ == declared@[j]@,
                        forall|j: int|
                            0 <= j < i ==> spec_type_matches(
                                f.value_type,
                                (#[trigger] values@[j])@,
                            ),
                    decreases an - i,
                {
                    if !f.value_type.matches_value(&declared[i]) {
                        proof {
                            assert(!spec_type_matches(
                                f.value_type,
                                (f.allowed_values->0@[i as int])@,
                            ));
                        }
                        return Err(SchemaError::AllowedValueTypeMismatch);
                    }
                    values.push(declared[i].duplicate());
                    i = i + 1;
                }
                proof {
                    assert forall|j: int|
                        0 <= j < f.allowed_values->0@.len() implies spec_type_matches(
                        f.value_type,
                        (#[trigger] f.allowed_values->0@[j])@,
                    ) by {
                        assert(values@[j]@ == declared@[j]@);
                    }
                }
                ValidationMethod::AllowedValues { values, names: Vec::new() }
            },
        }
    };
    let mut name_id = group_name.clone();
    crate::text::string_push(&mut name_id, '@');
    name_id.append(f.name.as_str());
    proof {
        assert(name_id@ =~= spec_name_id(group_name@, f.name@));
    }
    let title = match &f.title {
        Option::Some(t) => t.clone(),
        Option::None => f.name.clone(),
    };
    let comment = match &f.comment {
        Option::Some(c) => c.clone(),
        Option::None => String::new(),
    };
    let mut tags: Vec<String> = Vec::new();
    let tn: usize = f.tags.len();
    let mut i: usize = 0;
    while i < tn
        invariant
            tn == f.tags@.len(),
            i <= tn,
            tags@.len() == i,
            forall|j: int| 0 <= j < i ==> (#[trigger] tags@[j])@ == f.tags@[j]@,
        decreases tn - i,
    {
        tags.push(f.tags[i].clone());
        i = i + 1;
    }
    let compiled_type = vt_duplicate(&f.value_type);
    proof {
        lemma_vt_eq_props(compiled_type, f.value_type);
    }
    Ok(
        Parameter {
            value_type: compiled_type,
            value_default: default_value,
            name_id,
            validation,
            comment,
            title,
            is_const: f.is_const,
            tags,
            runtime: f.runtime,
            readonly: f.readonly,
            internal: f.internal,
        },
    )
}

/// Duplicate a declared type, keeping its identity.
pub fn vt_duplicate(t: &ParameterValueType) -> (r: ParameterValueType)
    ensures
        spec_vt_eq(r, *t),
{
    match t {
        ParameterValueType::TypeNone => ParameterValueType::TypeNone,
        ParameterValueType::TypeBool => ParameterValueType::TypeBool,
        ParameterValueType::TypeI32 => ParameterValueType::TypeI32,
        ParameterValueType::TypeU32 => ParameterValueType::TypeU32,
        ParameterValueType::TypeI64 => ParameterValueType::TypeI64,
        ParameterValueType::TypeU64 => ParameterValueType::TypeU64,
        ParameterValueType::TypeF32 => ParameterValueType::TypeF32,
        ParameterValueType::TypeF64 => ParameterValueType::TypeF64,
        ParameterValueType::TypeString => ParameterValueType::TypeString,
        ParameterValueType::TypeBlob => ParameterValueType::TypeBlob,
        ParameterValueType::TypeEnum(n) => ParameterValueType::TypeEnum(n.clone()),
    }
}

/// Decide [`spec_is_ordered_type`].
pub fn is_ordered_type(t: &ParameterValueType) -> (r: bool)
    ensures
        r == spec_is_ordered_type(*t),
{
    match t {
        ParameterValueType::TypeI32
        | ParameterValueType::TypeU32
        | ParameterValueType::TypeI64
        | ParameterValueType::TypeU64
        | ParameterValueType::TypeF32
        | ParameterValueType::TypeF64 => true,
        _ => false,
    }
}

} // verus!
