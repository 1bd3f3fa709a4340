//! Binding plan assembly and code emission.
//!
//! The assembler turns each provenance record into an output field
//! descriptor by pure name transforms: the schema symbol is the PascalCase
//! table name with the `Schema` suffix, the output field is the snake_case
//! alias (or column), and the column constant is the SCREAMING_SNAKE_CASE
//! column name. The emitter renders the plan as one construction expression
//! of the target type, one initializer per descriptor in plan order, wrapped
//! in a success value so inner parse failures propagate with `?`.

use crate::casing::pascal_case;
use crate::casing::pascal_of;
use crate::casing::shouty_of;
use crate::casing::shouty_snake_case;
use crate::casing::snake_case;
use crate::casing::snake_of;
use crate::model::FieldDescriptor;
use crate::model::FieldDescriptorV;
use crate::model::FieldProvenance;
use crate::model::FieldProvenanceV;
use vstd::prelude::*;

verus! {

/// The descriptor derived from one provenance record.
pub open spec fn descriptor_of(p: FieldProvenanceV) -> FieldDescriptorV {
    FieldDescriptorV {
        target_field_name: snake_of(
            match p.alias {
                Some(a) => a,
                None => p.field,
            },
        ),
        schema_identifier: pascal_of(p.table) + "Schema"@,
        column_identifier: shouty_of(p.field),
    }
}

/// The binding plan derived from a list of provenances, in the same order.
pub open spec fn plan_of(ps: Seq<FieldProvenanceV>) -> Seq<FieldDescriptorV> {
    ps.map_values(|p: FieldProvenanceV| descriptor_of(p))
}

/// Derives the output field descriptor for one provenance record.
pub fn descriptor_for(p: &FieldProvenance) -> (r: FieldDescriptor)
    ensures
        r@ == descriptor_of(p@),
{
    let target_source = match &p.alias {
        Some(a) => a,
        None => &p.field,
    };
    FieldDescriptor {
        target_field_name: snake_case(target_source.as_str()),
        schema_identifier: pascal_case(p.table.as_str()).concat("Schema"),
        column_identifier: shouty_snake_case(p.field.as_str()),
    }
}

/// Assembles the binding plan for a list of provenances, in order.
pub fn assemble_plan(ps: &Vec<FieldProvenance>) -> (r: Vec<FieldDescriptor>)
    ensures
        r.deep_view() == plan_of(ps.deep_view()),
{
    let ghost pv = ps.deep_view();
    let mut out: Vec<FieldDescriptor> = Vec::new();
    for i in 0..ps.len()
        invariant
            pv == ps.deep_view(),
            out.deep_view() == plan_of(pv.take(i as int)),
    {
        let d = descriptor_for(&ps[i]);
        out.push(d);
        proof {
            assert(out.deep_view() =~= plan_of(pv.take(i as int)).push(descriptor_of(pv[i as int])));
            assert(plan_of(pv.take(i + 1)) =~= plan_of(pv.take(i as int)).push(
                descriptor_of(pv[i as int]),
            ));
        }
    }
    proof {
        assert(pv.take(ps.len() as int) =~= pv);
    }
    out
}

/// The field initializer emitted for one descriptor.
pub open spec fn field_init_of(d: FieldDescriptorV) -> Seq<char> {
    d.target_field_name + ": "@ + d.schema_identifier + "::"@ + d.column_identifier
        + "::parse()?, "@
}

/// The field initializers emitted for a whole plan, in plan order.
pub open spec fn inits_of(plan: Seq<FieldDescriptorV>) -> Seq<char>
    decreases plan.len(),
{
    if plan.len() == 0 {
        Seq::empty()
    } else {
        inits_of(plan.drop_last()) + field_init_of(plan.last())
    }
}

/// The full emitted fragment: a construction of the target type from the
/// plan's initializers, wrapped in a success value.
pub open spec fn emitted_of(plan: Seq<FieldDescriptorV>, into_type: Seq<char>) -> Seq<char> {
    "Ok("@ + into_type + " { "@ + inits_of(plan) + "})"@
}

/// Renders the binding plan as source text constructing `into_type`.
pub fn emit(plan: &Vec<FieldDescriptor>, into_type: &str) -> (r: String)
    ensures
        r@ == emitted_of(plan.deep_view(), into_type@),
{
    let ghost dv = plan.deep_view();
    let mut fields = String::new();
    proof {
        assert(dv.take(0) =~= Seq::<FieldDescriptorV>::empty());
    }
    for i in 0..plan.len()
        invariant
            dv == plan.deep_view(),
            fields@ == inits_of(dv.take(i as int)),
    {
        fields.append(plan[i].target_field_name.as_str());
        fields.append(": ");
        fields.append(plan[i].schema_identifier.as_str());
        fields.append("::");
        fields.append(plan[i].column_identifier.as_str());
        fields.append("::parse()?, ");
        proof {
            assert(dv.take(i + 1).drop_last() =~= dv.take(i as int));
            assert(dv.take(i + 1).last() == dv[i as int]);
            assert(fields@ =~= inits_of(dv.take(i as int)) + field_init_of(dv[i as int]));
        }
    }
    proof {
        assert(dv.take(plan.len() as int) =~= dv);
    }
    let mut out = String::from_str("Ok(");
    out.append(into_type);
    out.append(" { ");
    out.append(fields.as_str());
    out.append("})");
    proof {
        assert(out@ =~= emitted_of(dv, into_type@));
    }
    out
}

/// When a projection item carries an output alias, the alias — not the
/// source column — determines the output field name; the schema and column
/// identifiers still come from the table and source column.
pub proof fn lemma_alias_names_output(p: FieldProvenanceV, a: Seq<char>)
    requires
        p.alias == Some(a),
    ensures
        descriptor_of(p).target_field_name == snake_of(a),
        descriptor_of(p).schema_identifier == pascal_of(p.table) + "Schema"@,
        descriptor_of(p).column_identifier == shouty_of(p.field),
{
}

/// Without an output alias, the source column determines the output field
/// name.
pub proof fn lemma_no_alias_names_output(p: FieldProvenanceV)
    requires
        p.alias is None,
    ensures
        descriptor_of(p).target_field_name == snake_of(p.field),
{
}

} // verus!
