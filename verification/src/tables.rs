//! The four tables that the exporter fills: their columns, their relations
//! and the encodings recommended for their columns.

use vstd::prelude::*;
use crate::bytes::seq_view;
use crate::schema::{
    all_fields_valid, all_relations_resolve, declares, relations_resolve, schema_result,
    EncodingHint, EncodingHintView, Entity, EntityField, EntityFieldEncoding, EntityFieldType,
    EntityFieldView, EntityRelation, EntityRelationType, EntityRelationView, EntityView,
    SchemaError, SchemaRegistry,
};
use crate::types::{
    ENTITY_BLOCKS_NAME, ENTITY_CALL_TRACES_NAME, ENTITY_EVENTS_NAME, ENTITY_FIELD_BLOCK_HASH,
    ENTITY_FIELD_BLOCK_INDEX, ENTITY_FIELD_BLOCK_TX_INDEX, ENTITY_FIELD_ID,
    ENTITY_FIELD_RECORD_VERSION, ENTITY_FIELD_TIME_INDEX, ENTITY_FIELD_TX_HASH,
    ENTITY_FIELD_TX_INDEX, ENTITY_TRANSACTIONS_NAME,
};

verus! {

/// A relation to the identifier column of the entity `remote`. No relation
/// of the four tables may be missing.
pub open spec fn relation(
    local: Seq<char>,
    remote: Seq<char>,
    relation_type: EntityRelationType,
    eager_fetch: bool,
) -> EntityRelationView {
    EntityRelationView {
        local_field_name: local,
        remote_entity_name: remote,
        remote_field_name: ENTITY_FIELD_ID@,
        relation_type,
        eager_fetch,
        nullable: false,
    }
}

/// A column with one value per row.
pub open spec fn field(name: Seq<char>, field_type: EntityFieldType) -> EntityFieldView {
    EntityFieldView { name, field_type, list: None }
}

/// A column with a list of values per row.
pub open spec fn list_field(
    name: Seq<char>,
    required: bool,
    element_type: EntityFieldType,
) -> EntityFieldView {
    EntityFieldView { name, field_type: element_type, list: Some(required) }
}

/// The encoding recommended for a column.
pub open spec fn hint(column: Seq<char>, encoding: EntityFieldEncoding) -> EncodingHintView {
    EncodingHintView { column, encoding }
}

fn build_relation(
    local: &str,
    remote: &str,
    relation_type: EntityRelationType,
    eager_fetch: bool,
) -> (built: EntityRelation)
    ensures
        built@ == relation(local@, remote@, relation_type, eager_fetch),
{
    EntityRelation {
        local_field_name: local.to_owned(),
        remote_entity_name: remote.to_owned(),
        remote_field_name: ENTITY_FIELD_ID.to_owned(),
        relation_type,
        eager_fetch,
        nullable: false,
    }
}

fn build_field(name: &str, field_type: EntityFieldType) -> (built: EntityField)
    ensures
        built@ == field(name@, field_type),
{
    EntityField::create_field(name.to_owned(), field_type)
}

fn build_hint(column: &str, encoding: EntityFieldEncoding) -> (built: EncodingHint)
    ensures
        built@ == hint(column@, encoding),
{
    EncodingHint { column: column.to_owned(), encoding }
}

/// Adds a list column to `fields`, or says why it is none.
fn push_list_field(
    fields: &mut Vec<EntityField>,
    name: &str,
    required: bool,
    element_type: EntityFieldType,
) -> (result: Result<(), SchemaError>)
    ensures
        result is Ok <==> element_type.spec_fits_list(),
        result is Ok ==> seq_view(*final(fields)) == seq_view(*old(fields)).push(
            list_field(name@, required, element_type),
        ),
        result is Err ==> *final(fields) == *old(fields),
{
    match EntityField::create_list_field(name.to_owned(), required, element_type) {
        Ok(built) => {
            let ghost before = seq_view(*fields);
            fields.push(built);
            assert(seq_view(*fields) =~= before.push(built@));
            Ok(())
        },
        Err(error) => Err(error),
    }
}

fn push_field(fields: &mut Vec<EntityField>, name: &str, field_type: EntityFieldType)
    ensures
        seq_view(*final(fields)) == seq_view(*old(fields)).push(field(name@, field_type)),
{
    let built = build_field(name, field_type);
    let ghost before = seq_view(*fields);
    fields.push(built);
    assert(seq_view(*fields) =~= before.push(built@));
}

fn push_relation(
    relations: &mut Vec<EntityRelation>,
    local: &str,
    remote: &str,
    relation_type: EntityRelationType,
    eager_fetch: bool,
)
    ensures
        seq_view(*final(relations)) == seq_view(*old(relations)).push(
            relation(local@, remote@, relation_type, eager_fetch),
        ),
{
    let built = build_relation(local, remote, relation_type, eager_fetch);
    let ghost before = seq_view(*relations);
    relations.push(built);
    assert(seq_view(*relations) =~= before.push(built@));
}

fn push_hint(hints: &mut Vec<EncodingHint>, column: &str, encoding: EntityFieldEncoding)
    ensures
        seq_view(*final(hints)) == seq_view(*old(hints)).push(hint(column@, encoding)),
{
    let built = build_hint(column, encoding);
    let ghost before = seq_view(*hints);
    hints.push(built);
    assert(seq_view(*hints) =~= before.push(built@));
}

/// The relations of the blocks table.
pub open spec fn blocks_relations() -> Seq<EntityRelationView> {
    Seq::empty()
        .push(
            relation(
                "relation_transactions"@,
                ENTITY_TRANSACTIONS_NAME@,
                EntityRelationType::OneToMany,
                false,
            ),
        )
        .push(
            relation("relation_events"@, ENTITY_EVENTS_NAME@, EntityRelationType::OneToMany, false),
        )
        .push(
            relation(
                "relation_call_traces"@,
                ENTITY_CALL_TRACES_NAME@,
                EntityRelationType::OneToMany,
                false,
            ),
        )
}

/// The columns of the blocks table.
pub open spec fn blocks_fields() -> Seq<EntityFieldView> {
    Seq::empty()
        .push(field(ENTITY_FIELD_ID@, EntityFieldType::Uint64(true)))
        .push(list_field("relation_transactions"@, true, EntityFieldType::Uint64(false)))
        .push(list_field("relation_events"@, true, EntityFieldType::Uint64(false)))
        .push(list_field("relation_call_traces"@, true, EntityFieldType::Uint64(false)))
        .push(field(ENTITY_FIELD_RECORD_VERSION@, EntityFieldType::Uint8(true)))
        .push(field(ENTITY_FIELD_BLOCK_INDEX@, EntityFieldType::Uint64(true)))
        .push(field(ENTITY_FIELD_TIME_INDEX@, EntityFieldType::Uint64(true)))
        .push(field(ENTITY_FIELD_BLOCK_TX_INDEX@, EntityFieldType::Uint64(true)))
        .push(field("epoch"@, EntityFieldType::Uint64(true)))
        .push(field("round"@, EntityFieldType::Uint64(true)))
        .push(field("hash"@, EntityFieldType::Binary(true)))
        .push(field("parent_hash"@, EntityFieldType::Binary(false)))
        .push(field("proposer"@, EntityFieldType::Binary(true)))
        .push(field("previous_block_votes"@, EntityFieldType::Binary(true)))
        .push(field("time"@, EntityFieldType::Uint64(true)))
        .push(field("size"@, EntityFieldType::Uint32(true)))
        .push(field("transactions_count"@, EntityFieldType::Uint32(true)))
        .push(field("total_minted"@, EntityFieldType::Uint64(true)))
        .push(field("total_fee"@, EntityFieldType::Uint64(true)))
}

/// The encodings recommended for the columns of the blocks table.
pub open spec fn blocks_encodings() -> Seq<EncodingHintView> {
    Seq::empty()
        .push(hint(ENTITY_FIELD_ID@, EntityFieldEncoding::DeltaBinaryPacked))
        .push(hint(ENTITY_FIELD_RECORD_VERSION@, EntityFieldEncoding::DeltaBinaryPacked))
        .push(hint(ENTITY_FIELD_BLOCK_INDEX@, EntityFieldEncoding::DeltaBinaryPacked))
        .push(hint(ENTITY_FIELD_TIME_INDEX@, EntityFieldEncoding::DeltaBinaryPacked))
        .push(hint(ENTITY_FIELD_BLOCK_TX_INDEX@, EntityFieldEncoding::DeltaBinaryPacked))
        .push(hint("relation_transactions.list.item"@, EntityFieldEncoding::DeltaBinaryPacked))
        .push(hint("relation_events.list.item"@, EntityFieldEncoding::DeltaBinaryPacked))
        .push(hint("relation_call_traces.list.item"@, EntityFieldEncoding::DeltaBinaryPacked))
        .push(hint("epoch"@, EntityFieldEncoding::DeltaBinaryPacked))
        .push(hint("round"@, EntityFieldEncoding::DeltaBinaryPacked))
        .push(hint("proposer"@, EntityFieldEncoding::RLEDictionary))
        .push(hint("time"@, EntityFieldEncoding::DeltaBinaryPacked))
}

/// The blocks table: one row for each completed block.
pub open spec fn blocks_entity() -> EntityView {
    EntityView {
        name: ENTITY_BLOCKS_NAME@,
        relations: blocks_relations(),
        fields: blocks_fields(),
        encodings: blocks_encodings(),
    }
}

/// Declares the blocks table.
fn build_blocks_entity() -> (result: Result<Entity, SchemaError>)
    ensures
        result matches Ok(entity) && entity@ == blocks_entity(),
{
    let mut relations: Vec<EntityRelation> = Vec::new();
    assert(seq_view(relations) =~= Seq::empty());
    push_relation(
        &mut relations,
        "relation_transactions",
        ENTITY_TRANSACTIONS_NAME,
        EntityRelationType::OneToMany,
        false,
    );
    push_relation(
        &mut relations,
        "relation_events",
        ENTITY_EVENTS_NAME,
        EntityRelationType::OneToMany,
        false,
    );
    push_relation(
        &mut relations,
        "relation_call_traces",
        ENTITY_CALL_TRACES_NAME,
        EntityRelationType::OneToMany,
        false,
    );
    let mut fields: Vec<EntityField> = Vec::new();
    assert(seq_view(fields) =~= Seq::empty());
    push_field(&mut fields, ENTITY_FIELD_ID, EntityFieldType::Uint64(true));
    push_list_field(&mut fields, "relation_transactions", true, EntityFieldType::Uint64(false))?;
    push_list_field(&mut fields, "relation_events", true, EntityFieldType::Uint64(false))?;
    push_list_field(&mut fields, "relation_call_traces", true, EntityFieldType::Uint64(false))?;
    push_field(&mut fields, ENTITY_FIELD_RECORD_VERSION, EntityFieldType::Uint8(true));
    push_field(&mut fields, ENTITY_FIELD_BLOCK_INDEX, EntityFieldType::Uint64(true));
    push_field(&mut fields, ENTITY_FIELD_TIME_INDEX, EntityFieldType::Uint64(true));
    push_field(&mut fields, ENTITY_FIELD_BLOCK_TX_INDEX, EntityFieldType::Uint64(true));
    push_field(&mut fields, "epoch", EntityFieldType::Uint64(true));
    push_field(&mut fields, "round", EntityFieldType::Uint64(true));
    push_field(&mut fields, "hash", EntityFieldType::Binary(true));
    push_field(&mut fields, "parent_hash", EntityFieldType::Binary(false));
    push_field(&mut fields, "proposer", EntityFieldType::Binary(true));
    push_field(&mut fields, "previous_block_votes", EntityFieldType::Binary(true));
    push_field(&mut fields, "time", EntityFieldType::Uint64(true));
    push_field(&mut fields, "size", EntityFieldType::Uint32(true));
    push_field(&mut fields, "transactions_count", EntityFieldType::Uint32(true));
    push_field(&mut fields, "total_minted", EntityFieldType::Uint64(true));
    push_field(&mut fields, "total_fee", EntityFieldType::Uint64(true));
    let mut encodings: Vec<EncodingHint> = Vec::new();
    assert(seq_view(encodings) =~= Seq::empty());
    push_hint(&mut encodings, ENTITY_FIELD_ID, EntityFieldEncoding::DeltaBinaryPacked);
    push_hint(&mut encodings, ENTITY_FIELD_RECORD_VERSION, EntityFieldEncoding::DeltaBinaryPacked);
    push_hint(&mut encodings, ENTITY_FIELD_BLOCK_INDEX, EntityFieldEncoding::DeltaBinaryPacked);
    push_hint(&mut encodings, ENTITY_FIELD_TIME_INDEX, EntityFieldEncoding::DeltaBinaryPacked);
    push_hint(&mut encodings, ENTITY_FIELD_BLOCK_TX_INDEX, EntityFieldEncoding::DeltaBinaryPacked);
    push_hint(
        &mut encodings,
        "relation_transactions.list.item",
        EntityFieldEncoding::DeltaBinaryPacked,
    );
    push_hint(&mut encodings, "relation_events.list.item", EntityFieldEncoding::DeltaBinaryPacked);
    push_hint(
        &mut encodings,
        "relation_call_traces.list.item",
        EntityFieldEncoding::DeltaBinaryPacked,
    );
    push_hint(&mut encodings, "epoch", EntityFieldEncoding::DeltaBinaryPacked);
    push_hint(&mut encodings, "round", EntityFieldEncoding::DeltaBinaryPacked);
    push_hint(&mut encodings, "proposer", EntityFieldEncoding::RLEDictionary);
    push_hint(&mut encodings, "time", EntityFieldEncoding::DeltaBinaryPacked);
    Ok(Entity::new(ENTITY_BLOCKS_NAME.to_owned(), relations, fields, encodings))
}

/// The relations of the transactions table.
pub open spec fn transactions_relations() -> Seq<EntityRelationView> {
    Seq::empty()
        .push(relation("relation_block"@, ENTITY_BLOCKS_NAME@, EntityRelationType::ManyToOne, true))
        .push(
            relation("relation_events"@, ENTITY_EVENTS_NAME@, EntityRelationType::OneToMany, false),
        )
        .push(
            relation(
                "relation_call_traces"@,
                ENTITY_CALL_TRACES_NAME@,
                EntityRelationType::OneToMany,
                false,
            ),
        )
}

/// The columns of the transactions table.
pub open spec fn transactions_fields() -> Seq<EntityFieldView> {
    Seq::empty()
        .push(field(ENTITY_FIELD_ID@, EntityFieldType::Uint64(true)))
        .push(field("relation_block"@, EntityFieldType::Uint64(true)))
        .push(list_field("relation_events"@, true, EntityFieldType::Uint64(false)))
        .push(list_field("relation_call_traces"@, true, EntityFieldType::Uint64(false)))
        .push(field(ENTITY_FIELD_RECORD_VERSION@, EntityFieldType::Uint8(true)))
        .push(field(ENTITY_FIELD_TX_INDEX@, EntityFieldType::Uint64(true)))
        .push(field(ENTITY_FIELD_BLOCK_INDEX@, EntityFieldType::Uint64(true)))
        .push(field(ENTITY_FIELD_TIME_INDEX@, EntityFieldType::Uint64(true)))
        .push(field(ENTITY_FIELD_BLOCK_TX_INDEX@, EntityFieldType::Uint64(true)))
        .push(field(ENTITY_FIELD_BLOCK_HASH@, EntityFieldType::Binary(true)))
        .push(field(ENTITY_FIELD_TX_HASH@, EntityFieldType::Binary(true)))
        .push(field("epoch"@, EntityFieldType::Uint64(true)))
        .push(field("chain_id"@, EntityFieldType::Uint8(true)))
        .push(field("state_change_hash"@, EntityFieldType::Binary(true)))
        .push(field("event_root_hash"@, EntityFieldType::Binary(true)))
        .push(field("success"@, EntityFieldType::Boolean(true)))
        .push(field("detailed_status"@, EntityFieldType::Binary(true)))
        .push(field("tx_type"@, EntityFieldType::Uint8(true)))
        .push(field("sender"@, EntityFieldType::Binary(false)))
        .push(field("sequence_number"@, EntityFieldType::Uint64(false)))
        .push(field("gas_limit"@, EntityFieldType::Uint64(false)))
        .push(field("gas_price"@, EntityFieldType::Uint64(false)))
        .push(field("gas_used"@, EntityFieldType::Uint64(true)))
        .push(field("expiration_timestamp_secs"@, EntityFieldType::Uint64(false)))
        .push(field("payload_type"@, EntityFieldType::Uint8(true)))
        .push(field("payload_code"@, EntityFieldType::Binary(false)))
        .push(field("payload_module_address"@, EntityFieldType::Binary(false)))
        .push(field("payload_method_name"@, EntityFieldType::Binary(false)))
        .push(list_field("payload_ty_args"@, false, EntityFieldType::Binary(false)))
        .push(list_field("payload_arg_types"@, false, EntityFieldType::Binary(false)))
        .push(list_field("payload_arg_values"@, false, EntityFieldType::Binary(false)))
        .push(field("signature"@, EntityFieldType::Binary(false)))
        .push(field("state_checkpoint"@, EntityFieldType::Binary(false)))
        .push(field("proposer"@, EntityFieldType::Binary(false)))
        .push(field("size"@, EntityFieldType::Uint32(false)))
        .push(field("time"@, EntityFieldType::Uint64(true)))
        .push(field("fee"@, EntityFieldType::Uint64(false)))
}

/// The encodings recommended for the columns of the transactions table.
pub open spec fn transactions_encodings() -> Seq<EncodingHintView> {
    Seq::empty()
        .push(hint(ENTITY_FIELD_ID@, EntityFieldEncoding::DeltaBinaryPacked))
        .push(hint(ENTITY_FIELD_RECORD_VERSION@, EntityFieldEncoding::DeltaBinaryPacked))
        .push(hint(ENTITY_FIELD_BLOCK_INDEX@, EntityFieldEncoding::DeltaBinaryPacked))
        .push(hint(ENTITY_FIELD_TIME_INDEX@, EntityFieldEncoding::DeltaBinaryPacked))
        .push(hint(ENTITY_FIELD_BLOCK_TX_INDEX@, EntityFieldEncoding::DeltaBinaryPacked))
        .push(hint("relation_block"@, EntityFieldEncoding::DeltaBinaryPacked))
        .push(hint("relation_events.list.item"@, EntityFieldEncoding::DeltaBinaryPacked))
        .push(hint("relation_call_traces.list.item"@, EntityFieldEncoding::DeltaBinaryPacked))
        .push(hint(ENTITY_FIELD_BLOCK_HASH@, EntityFieldEncoding::RLEDictionary))
        .push(hint(ENTITY_FIELD_TX_HASH@, EntityFieldEncoding::RLEDictionary))
        .push(hint("epoch"@, EntityFieldEncoding::DeltaBinaryPacked))
        .push(hint("time"@, EntityFieldEncoding::DeltaBinaryPacked))
}

/// The transactions table: one row for each transaction.
pub open spec fn transactions_entity() -> EntityView {
    EntityView {
        name: ENTITY_TRANSACTIONS_NAME@,
        relations: transactions_relations(),
        fields: transactions_fields(),
        encodings: transactions_encodings(),
    }
}

/// Declares the transactions table.
fn build_transactions_entity() -> (result: Result<Entity, SchemaError>)
    ensures
        result matches Ok(entity) && entity@ == transactions_entity(),
{
    let mut relations: Vec<EntityRelation> = Vec::new();
    assert(seq_view(relations) =~= Seq::empty());
    push_relation(
        &mut relations,
        "relation_block",
        ENTITY_BLOCKS_NAME,
        EntityRelationType::ManyToOne,
        true,
    );
    push_relation(
        &mut relations,
        "relation_events",
        ENTITY_EVENTS_NAME,
        EntityRelationType::OneToMany,
        false,
    );
    push_relation(
        &mut relations,
        "relation_call_traces",
        ENTITY_CALL_TRACES_NAME,
        EntityRelationType::OneToMany,
        false,
    );
    let mut fields: Vec<EntityField> = Vec::new();
    assert(seq_view(fields) =~= Seq::empty());
    push_field(&mut fields, ENTITY_FIELD_ID, EntityFieldType::Uint64(true));
    push_field(&mut fields, "relation_block", EntityFieldType::Uint64(true));
    push_list_field(&mut fields, "relation_events", true, EntityFieldType::Uint64(false))?;
    push_list_field(&mut fields, "relation_call_traces", true, EntityFieldType::Uint64(false))?;
    push_field(&mut fields, ENTITY_FIELD_RECORD_VERSION, EntityFieldType::Uint8(true));
    push_field(&mut fields, ENTITY_FIELD_TX_INDEX, EntityFieldType::Uint64(true));
    push_field(&mut fields, ENTITY_FIELD_BLOCK_INDEX, EntityFieldType::Uint64(true));
    push_field(&mut fields, ENTITY_FIELD_TIME_INDEX, EntityFieldType::Uint64(true));
    push_field(&mut fields, ENTITY_FIELD_BLOCK_TX_INDEX, EntityFieldType::Uint64(true));
    push_field(&mut fields, ENTITY_FIELD_BLOCK_HASH, EntityFieldType::Binary(true));
    push_field(&mut fields, ENTITY_FIELD_TX_HASH, EntityFieldType::Binary(true));
    push_field(&mut fields, "epoch", EntityFieldType::Uint64(true));
    push_field(&mut fields, "chain_id", EntityFieldType::Uint8(true));
    push_field(&mut fields, "state_change_hash", EntityFieldType::Binary(true));
    push_field(&mut fields, "event_root_hash", EntityFieldType::Binary(true));
    push_field(&mut fields, "success", EntityFieldType::Boolean(true));
    push_field(&mut fields, "detailed_status", EntityFieldType::Binary(true));
    push_field(&mut fields, "tx_type", EntityFieldType::Uint8(true));
    push_field(&mut fields, "sender", EntityFieldType::Binary(false));
    push_field(&mut fields, "sequence_number", EntityFieldType::Uint64(false));
    push_field(&mut fields, "gas_limit", EntityFieldType::Uint64(false));
    push_field(&mut fields, "gas_price", EntityFieldType::Uint64(false));
    push_field(&mut fields, "gas_used", EntityFieldType::Uint64(true));
    push_field(&mut fields, "expiration_timestamp_secs", EntityFieldType::Uint64(false));
    push_field(&mut fields, "payload_type", EntityFieldType::Uint8(true));
    push_field(&mut fields, "payload_code", EntityFieldType::Binary(false));
    push_field(&mut fields, "payload_module_address", EntityFieldType::Binary(false));
    push_field(&mut fields, "payload_method_name", EntityFieldType::Binary(false));
    push_list_field(&mut fields, "payload_ty_args", false, EntityFieldType::Binary(false))?;
    push_list_field(&mut fields, "payload_arg_types", false, EntityFieldType::Binary(false))?;
    push_list_field(&mut fields, "payload_arg_values", false, EntityFieldType::Binary(false))?;
    push_field(&mut fields, "signature", EntityFieldType::Binary(false));
    push_field(&mut fields, "state_checkpoint", EntityFieldType::Binary(false));
    push_field(&mut fields, "proposer", EntityFieldType::Binary(false));
    push_field(&mut fields, "size", EntityFieldType::Uint32(false));
    push_field(&mut fields, "time", EntityFieldType::Uint64(true));
    push_field(&mut fields, "fee", EntityFieldType::Uint64(false));
    let mut encodings: Vec<EncodingHint> = Vec::new();
    assert(seq_view(encodings) =~= Seq::empty());
    push_hint(&mut encodings, ENTITY_FIELD_ID, EntityFieldEncoding::DeltaBinaryPacked);
    push_hint(&mut encodings, ENTITY_FIELD_RECORD_VERSION, EntityFieldEncoding::DeltaBinaryPacked);
    push_hint(&mut encodings, ENTITY_FIELD_BLOCK_INDEX, EntityFieldEncoding::DeltaBinaryPacked);
    push_hint(&mut encodings, ENTITY_FIELD_TIME_INDEX, EntityFieldEncoding::DeltaBinaryPacked);
    push_hint(&mut encodings, ENTITY_FIELD_BLOCK_TX_INDEX, EntityFieldEncoding::DeltaBinaryPacked);
    push_hint(&mut encodings, "relation_block", EntityFieldEncoding::DeltaBinaryPacked);
    push_hint(&mut encodings, "relation_events.list.item", EntityFieldEncoding::DeltaBinaryPacked);
    push_hint(
        &mut encodings,
        "relation_call_traces.list.item",
        EntityFieldEncoding::DeltaBinaryPacked,
    );
    push_hint(&mut encodings, ENTITY_FIELD_BLOCK_HASH, EntityFieldEncoding::RLEDictionary);
    push_hint(&mut encodings, ENTITY_FIELD_TX_HASH, EntityFieldEncoding::RLEDictionary);
    push_hint(&mut encodings, "epoch", EntityFieldEncoding::DeltaBinaryPacked);
    push_hint(&mut encodings, "time", EntityFieldEncoding::DeltaBinaryPacked);
    Ok(Entity::new(ENTITY_TRANSACTIONS_NAME.to_owned(), relations, fields, encodings))
}

/// The relations of the events table.
pub open spec fn events_relations() -> Seq<EntityRelationView> {
    Seq::empty()
        .push(relation("relation_block"@, ENTITY_BLOCKS_NAME@, EntityRelationType::ManyToOne, true))
        .push(
            relation(
                "relation_transaction"@,
                ENTITY_TRANSACTIONS_NAME@,
                EntityRelationType::ManyToOne,
                true,
            ),
        )
}

/// The columns of the events table.
pub open spec fn events_fields() -> Seq<EntityFieldView> {
    Seq::empty()
        .push(field(ENTITY_FIELD_ID@, EntityFieldType::Uint64(true)))
        .push(field("relation_block"@, EntityFieldType::Uint64(true)))
        .push(field("relation_transaction"@, EntityFieldType::Uint64(true)))
        .push(field(ENTITY_FIELD_RECORD_VERSION@, EntityFieldType::Uint8(true)))
        .push(field(ENTITY_FIELD_TX_INDEX@, EntityFieldType::Uint64(true)))
        .push(field(ENTITY_FIELD_BLOCK_INDEX@, EntityFieldType::Uint64(true)))
        .push(field(ENTITY_FIELD_TIME_INDEX@, EntityFieldType::Uint64(true)))
        .push(field(ENTITY_FIELD_BLOCK_TX_INDEX@, EntityFieldType::Uint64(true)))
        .push(field(ENTITY_FIELD_BLOCK_HASH@, EntityFieldType::Binary(true)))
        .push(field(ENTITY_FIELD_TX_HASH@, EntityFieldType::Binary(true)))
        .push(field("index"@, EntityFieldType::Uint32(true)))
        .push(field("module_address"@, EntityFieldType::Binary(false)))
        .push(field("event_name"@, EntityFieldType::Binary(false)))
        .push(list_field("payload_arg_types"@, false, EntityFieldType::Binary(false)))
        .push(list_field("payload_arg_names"@, false, EntityFieldType::Binary(false)))
        .push(list_field("payload_arg_values"@, false, EntityFieldType::Binary(false)))
        .push(field("creation_number"@, EntityFieldType::Uint64(true)))
}

/// The encodings recommended for the columns of the events table.
pub open spec fn events_encodings() -> Seq<EncodingHintView> {
    Seq::empty()
        .push(hint(ENTITY_FIELD_ID@, EntityFieldEncoding::DeltaBinaryPacked))
        .push(hint(ENTITY_FIELD_RECORD_VERSION@, EntityFieldEncoding::DeltaBinaryPacked))
        .push(hint(ENTITY_FIELD_BLOCK_INDEX@, EntityFieldEncoding::DeltaBinaryPacked))
        .push(hint(ENTITY_FIELD_TIME_INDEX@, EntityFieldEncoding::DeltaBinaryPacked))
        .push(hint(ENTITY_FIELD_BLOCK_TX_INDEX@, EntityFieldEncoding::DeltaBinaryPacked))
        .push(hint("relation_block"@, EntityFieldEncoding::DeltaBinaryPacked))
        .push(hint("relation_transaction"@, EntityFieldEncoding::DeltaBinaryPacked))
        .push(hint(ENTITY_FIELD_BLOCK_HASH@, EntityFieldEncoding::RLEDictionary))
        .push(hint(ENTITY_FIELD_TX_HASH@, EntityFieldEncoding::RLEDictionary))
        .push(hint("module_address"@, EntityFieldEncoding::RLEDictionary))
        .push(hint("event_name"@, EntityFieldEncoding::RLEDictionary))
        .push(hint("time"@, EntityFieldEncoding::DeltaBinaryPacked))
}

/// The events table: one row for each event that a transaction emitted.
pub open spec fn events_entity() -> EntityView {
    EntityView {
        name: ENTITY_EVENTS_NAME@,
        relations: events_relations(),
        fields: events_fields(),
        encodings: events_encodings(),
    }
}

/// Declares the events table.
fn build_events_entity() -> (result: Result<Entity, SchemaError>)
    ensures
        result matches Ok(entity) && entity@ == events_entity(),
{
    let mut relations: Vec<EntityRelation> = Vec::new();
    assert(seq_view(relations) =~= Seq::empty());
    push_relation(
        &mut relations,
        "relation_block",
        ENTITY_BLOCKS_NAME,
        EntityRelationType::ManyToOne,
        true,
    );
    push_relation(
        &mut relations,
        "relation_transaction",
        ENTITY_TRANSACTIONS_NAME,
        EntityRelationType::ManyToOne,
        true,
    );
    let mut fields: Vec<EntityField> = Vec::new();
    assert(seq_view(fields) =~= Seq::empty());
    push_field(&mut fields, ENTITY_FIELD_ID, EntityFieldType::Uint64(true));
    push_field(&mut fields, "relation_block", EntityFieldType::Uint64(true));
    push_field(&mut fields, "relation_transaction", EntityFieldType::Uint64(true));
    push_field(&mut fields, ENTITY_FIELD_RECORD_VERSION, EntityFieldType::Uint8(true));
    push_field(&mut fields, ENTITY_FIELD_TX_INDEX, EntityFieldType::Uint64(true));
    push_field(&mut fields, ENTITY_FIELD_BLOCK_INDEX, EntityFieldType::Uint64(true));
    push_field(&mut fields, ENTITY_FIELD_TIME_INDEX, EntityFieldType::Uint64(true));
    push_field(&mut fields, ENTITY_FIELD_BLOCK_TX_INDEX, EntityFieldType::Uint64(true));
    push_field(&mut fields, ENTITY_FIELD_BLOCK_HASH, EntityFieldType::Binary(true));
    push_field(&mut fields, ENTITY_FIELD_TX_HASH, EntityFieldType::Binary(true));
    push_field(&mut fields, "index", EntityFieldType::Uint32(true));
    push_field(&mut fields, "module_address", EntityFieldType::Binary(false));
    push_field(&mut fields, "event_name", EntityFieldType::Binary(false));
    push_list_field(&mut fields, "payload_arg_types", false, EntityFieldType::Binary(false))?;
    push_list_field(&mut fields, "payload_arg_names", false, EntityFieldType::Binary(false))?;
    push_list_field(&mut fields, "payload_arg_values", false, EntityFieldType::Binary(false))?;
    push_field(&mut fields, "creation_number", EntityFieldType::Uint64(true));
    let mut encodings: Vec<EncodingHint> = Vec::new();
    assert(seq_view(encodings) =~= Seq::empty());
    push_hint(&mut encodings, ENTITY_FIELD_ID, EntityFieldEncoding::DeltaBinaryPacked);
    push_hint(&mut encodings, ENTITY_FIELD_RECORD_VERSION, EntityFieldEncoding::DeltaBinaryPacked);
    push_hint(&mut encodings, ENTITY_FIELD_BLOCK_INDEX, EntityFieldEncoding::DeltaBinaryPacked);
    push_hint(&mut encodings, ENTITY_FIELD_TIME_INDEX, EntityFieldEncoding::DeltaBinaryPacked);
    push_hint(&mut encodings, ENTITY_FIELD_BLOCK_TX_INDEX, EntityFieldEncoding::DeltaBinaryPacked);
    push_hint(&mut encodings, "relation_block", EntityFieldEncoding::DeltaBinaryPacked);
    push_hint(&mut encodings, "relation_transaction", EntityFieldEncoding::DeltaBinaryPacked);
    push_hint(&mut encodings, ENTITY_FIELD_BLOCK_HASH, EntityFieldEncoding::RLEDictionary);
    push_hint(&mut encodings, ENTITY_FIELD_TX_HASH, EntityFieldEncoding::RLEDictionary);
    push_hint(&mut encodings, "module_address", EntityFieldEncoding::RLEDictionary);
    push_hint(&mut encodings, "event_name", EntityFieldEncoding::RLEDictionary);
    push_hint(&mut encodings, "time", EntityFieldEncoding::DeltaBinaryPacked);
    Ok(Entity::new(ENTITY_EVENTS_NAME.to_owned(), relations, fields, encodings))
}

/// The relations of the call traces table.
pub open spec fn call_traces_relations() -> Seq<EntityRelationView> {
    Seq::empty()
        .push(relation("relation_block"@, ENTITY_BLOCKS_NAME@, EntityRelationType::ManyToOne, true))
        .push(
            relation(
                "relation_transaction"@,
                ENTITY_TRANSACTIONS_NAME@,
                EntityRelationType::ManyToOne,
                true,
            ),
        )
}

/// The columns of the call traces table.
pub open spec fn call_traces_fields() -> Seq<EntityFieldView> {
    Seq::empty()
        .push(field(ENTITY_FIELD_ID@, EntityFieldType::Uint64(true)))
        .push(field("relation_block"@, EntityFieldType::Uint64(true)))
        .push(field("relation_transaction"@, EntityFieldType::Uint64(true)))
        .push(field(ENTITY_FIELD_RECORD_VERSION@, EntityFieldType::Uint8(true)))
        .push(field(ENTITY_FIELD_TX_INDEX@, EntityFieldType::Uint64(true)))
        .push(field(ENTITY_FIELD_BLOCK_INDEX@, EntityFieldType::Uint64(true)))
        .push(field(ENTITY_FIELD_TIME_INDEX@, EntityFieldType::Uint64(true)))
        .push(field(ENTITY_FIELD_BLOCK_TX_INDEX@, EntityFieldType::Uint64(true)))
        .push(field(ENTITY_FIELD_BLOCK_HASH@, EntityFieldType::Binary(true)))
        .push(field(ENTITY_FIELD_TX_HASH@, EntityFieldType::Binary(true)))
        .push(field("tx_type"@, EntityFieldType::Uint8(true)))
        .push(field("depth"@, EntityFieldType::Uint32(true)))
        .push(field("call_type"@, EntityFieldType::Uint8(true)))
        .push(field("module_address"@, EntityFieldType::Binary(false)))
        .push(field("method_name"@, EntityFieldType::Binary(true)))
        .push(list_field("ty_args"@, false, EntityFieldType::Binary(false)))
        .push(list_field("arg_types"@, false, EntityFieldType::Binary(false)))
        .push(list_field("arg_values"@, false, EntityFieldType::Binary(false)))
        .push(field("gas_used"@, EntityFieldType::Uint64(true)))
        .push(field("err"@, EntityFieldType::Binary(false)))
}

/// The encodings recommended for the columns of the call traces table.
pub open spec fn call_traces_encodings() -> Seq<EncodingHintView> {
    Seq::empty()
        .push(hint(ENTITY_FIELD_ID@, EntityFieldEncoding::DeltaBinaryPacked))
        .push(hint(ENTITY_FIELD_RECORD_VERSION@, EntityFieldEncoding::DeltaBinaryPacked))
        .push(hint(ENTITY_FIELD_BLOCK_INDEX@, EntityFieldEncoding::DeltaBinaryPacked))
        .push(hint(ENTITY_FIELD_TIME_INDEX@, EntityFieldEncoding::DeltaBinaryPacked))
        .push(hint(ENTITY_FIELD_BLOCK_TX_INDEX@, EntityFieldEncoding::DeltaBinaryPacked))
        .push(hint("relation_block"@, EntityFieldEncoding::DeltaBinaryPacked))
        .push(hint("relation_transaction"@, EntityFieldEncoding::DeltaBinaryPacked))
        .push(hint(ENTITY_FIELD_BLOCK_HASH@, EntityFieldEncoding::RLEDictionary))
        .push(hint(ENTITY_FIELD_TX_HASH@, EntityFieldEncoding::RLEDictionary))
        .push(hint("module_address"@, EntityFieldEncoding::PlainDictionary))
}

/// The call traces table: one row for each frame of a transaction's execution.
pub open spec fn call_traces_entity() -> EntityView {
    EntityView {
        name: ENTITY_CALL_TRACES_NAME@,
        relations: call_traces_relations(),
        fields: call_traces_fields(),
        encodings: call_traces_encodings(),
    }
}

/// Declares the call traces table.
fn build_call_traces_entity() -> (result: Result<Entity, SchemaError>)
    ensures
        result matches Ok(entity) && entity@ == call_traces_entity(),
{
    let mut relations: Vec<EntityRelation> = Vec::new();
    assert(seq_view(relations) =~= Seq::empty());
    push_relation(
        &mut relations,
        "relation_block",
        ENTITY_BLOCKS_NAME,
        EntityRelationType::ManyToOne,
        true,
    );
    push_relation(
        &mut relations,
        "relation_transaction",
        ENTITY_TRANSACTIONS_NAME,
        EntityRelationType::ManyToOne,
        true,
    );
    let mut fields: Vec<EntityField> = Vec::new();
    assert(seq_view(fields) =~= Seq::empty());
    push_field(&mut fields, ENTITY_FIELD_ID, EntityFieldType::Uint64(true));
    push_field(&mut fields, "relation_block", EntityFieldType::Uint64(true));
    push_field(&mut fields, "relation_transaction", EntityFieldType::Uint64(true));
    push_field(&mut fields, ENTITY_FIELD_RECORD_VERSION, EntityFieldType::Uint8(true));
    push_field(&mut fields, ENTITY_FIELD_TX_INDEX, EntityFieldType::Uint64(true));
    push_field(&mut fields, ENTITY_FIELD_BLOCK_INDEX, EntityFieldType::Uint64(true));
    push_field(&mut fields, ENTITY_FIELD_TIME_INDEX, EntityFieldType::Uint64(true));
    push_field(&mut fields, ENTITY_FIELD_BLOCK_TX_INDEX, EntityFieldType::Uint64(true));
    push_field(&mut fields, ENTITY_FIELD_BLOCK_HASH, EntityFieldType::Binary(true));
    push_field(&mut fields, ENTITY_FIELD_TX_HASH, EntityFieldType::Binary(true));
    push_field(&mut fields, "tx_type", EntityFieldType::Uint8(true));
    push_field(&mut fields, "depth", EntityFieldType::Uint32(true));
    push_field(&mut fields, "call_type", EntityFieldType::Uint8(true));
    push_field(&mut fields, "module_address", EntityFieldType::Binary(false));
    push_field(&mut fields, "method_name", EntityFieldType::Binary(true));
    push_list_field(&mut fields, "ty_args", false, EntityFieldType::Binary(false))?;
    push_list_field(&mut fields, "arg_types", false, EntityFieldType::Binary(false))?;
    push_list_field(&mut fields, "arg_values", false, EntityFieldType::Binary(false))?;
    push_field(&mut fields, "gas_used", EntityFieldType::Uint64(true));
    push_field(&mut fields, "err", EntityFieldType::Binary(false));
    let mut encodings: Vec<EncodingHint> = Vec::new();
    assert(seq_view(encodings) =~= Seq::empty());
    push_hint(&mut encodings, ENTITY_FIELD_ID, EntityFieldEncoding::DeltaBinaryPacked);
    push_hint(&mut encodings, ENTITY_FIELD_RECORD_VERSION, EntityFieldEncoding::DeltaBinaryPacked);
    push_hint(&mut encodings, ENTITY_FIELD_BLOCK_INDEX, EntityFieldEncoding::DeltaBinaryPacked);
    push_hint(&mut encodings, ENTITY_FIELD_TIME_INDEX, EntityFieldEncoding::DeltaBinaryPacked);
    push_hint(&mut encodings, ENTITY_FIELD_BLOCK_TX_INDEX, EntityFieldEncoding::DeltaBinaryPacked);
    push_hint(&mut encodings, "relation_block", EntityFieldEncoding::DeltaBinaryPacked);
    push_hint(&mut encodings, "relation_transaction", EntityFieldEncoding::DeltaBinaryPacked);
    push_hint(&mut encodings, ENTITY_FIELD_BLOCK_HASH, EntityFieldEncoding::RLEDictionary);
    push_hint(&mut encodings, ENTITY_FIELD_TX_HASH, EntityFieldEncoding::RLEDictionary);
    push_hint(&mut encodings, "module_address", EntityFieldEncoding::PlainDictionary);
    Ok(Entity::new(ENTITY_CALL_TRACES_NAME.to_owned(), relations, fields, encodings))
}

/// The four tables, in the order blocks, transactions, events, call traces.
pub open spec fn export_entities() -> Seq<EntityView> {
    seq![blocks_entity(), transactions_entity(), events_entity(), call_traces_entity()]
}

/// The four tables make a schema: every list column holds 64-bit numbers or
/// byte strings, and every relation points to one of the four.
pub proof fn lemma_export_entities_valid()
    ensures
        schema_result(export_entities()) is Ok,
{
    let entities = export_entities();
    assert(entities[0].fields_valid());
    assert(entities[1].fields_valid());
    assert(entities[2].fields_valid());
    assert(entities[3].fields_valid());
    assert(all_fields_valid(entities));
    assert(entities[0].name == ENTITY_BLOCKS_NAME@);
    assert(entities[1].name == ENTITY_TRANSACTIONS_NAME@);
    assert(entities[2].name == ENTITY_EVENTS_NAME@);
    assert(entities[3].name == ENTITY_CALL_TRACES_NAME@);
    assert(declares(entities, ENTITY_BLOCKS_NAME@));
    assert(declares(entities, ENTITY_TRANSACTIONS_NAME@));
    assert(declares(entities, ENTITY_EVENTS_NAME@));
    assert(declares(entities, ENTITY_CALL_TRACES_NAME@));
    assert(relations_resolve(entities, entities[0]));
    assert(relations_resolve(entities, entities[1]));
    assert(relations_resolve(entities, entities[2]));
    assert(relations_resolve(entities, entities[3]));
    assert(all_relations_resolve(entities));
}

/// Declares the four tables and makes their registry.
pub fn export_schema() -> (result: Result<SchemaRegistry, SchemaError>)
    ensures
        result matches Ok(registry) && registry@ == export_entities(),
{
    let blocks = build_blocks_entity()?;
    let transactions = build_transactions_entity()?;
    let events = build_events_entity()?;
    let call_traces = build_call_traces_entity()?;
    let entities = vec![blocks, transactions, events, call_traces];
    proof {
        assert(seq_view(entities) =~= export_entities());
        lemma_export_entities_valid();
    }
    SchemaRegistry::new(entities)
}

} // verus!
