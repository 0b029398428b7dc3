//! The schema registry: the declaration of entities, their fields, their
//! relations to one another and the encodings recommended for their
//! columns, and the check that a set of entities is consistent.

use vstd::prelude::*;
use crate::bytes::seq_view;

verus! {

/// The type of a column's values. The flag says whether a value is
/// required in every row.
#[derive(Clone, Copy, Debug, PartialEq, Eq, Structural)]
pub enum EntityFieldType {
    Uint8(bool),
    Uint32(bool),
    Uint64(bool),
    Boolean(bool),
    Binary(bool),
}

impl EntityFieldType {
    /// A list column can hold values of this type: lists hold 64-bit
    /// numbers or byte strings.
    pub open spec fn spec_fits_list(self) -> bool {
        self is Uint64 || self is Binary
    }

    /// A list column can hold values of this type.
    #[verifier::when_used_as_spec(spec_fits_list)]
    pub fn fits_list(self) -> (fits: bool)
        ensures
            fits == self.spec_fits_list(),
    {
        match self {
            EntityFieldType::Uint64(_) => true,
            EntityFieldType::Binary(_) => true,
            _ => false,
        }
    }
}

/// How many rows stand on each side of a relation.
#[derive(Clone, Copy, Debug, PartialEq, Eq, Structural)]
pub enum EntityRelationType {
    OneToMany,
    ManyToOne,
}

/// An encoding recommended for a column.
#[derive(Clone, Copy, Debug, PartialEq, Eq, Structural)]
pub enum EntityFieldEncoding {
    /// For columns whose values rise steadily: indices and identifiers.
    DeltaBinaryPacked,
    /// For columns that repeat few values: hashes and addresses.
    RLEDictionary,
    PlainDictionary,
}

/// Why a schema was refused.
#[derive(Clone, Copy, Debug, PartialEq, Eq, Structural)]
pub enum SchemaError {
    /// A list field holds values of a type that lists cannot hold.
    IncompatibleListElement,
    /// A relation points to an entity that is not declared.
    UndeclaredEntity,
}

/// A link from a field of one entity to a field of another.
#[derive(Clone, Debug, PartialEq, Eq)]
pub struct EntityRelation {
    pub local_field_name: String,
    pub remote_entity_name: String,
    pub remote_field_name: String,
    pub relation_type: EntityRelationType,
    pub eager_fetch: bool,
    pub nullable: bool,
}

/// What a [`EntityRelation`] holds, as mathematical values.
#[verifier::ext_equal]
pub struct EntityRelationView {
    pub local_field_name: Seq<char>,
    pub remote_entity_name: Seq<char>,
    pub remote_field_name: Seq<char>,
    pub relation_type: EntityRelationType,
    pub eager_fetch: bool,
    pub nullable: bool,
}

impl View for EntityRelation {
    type V = EntityRelationView;

    open spec fn view(&self) -> EntityRelationView {
        EntityRelationView {
            local_field_name: self.local_field_name@,
            remote_entity_name: self.remote_entity_name@,
            remote_field_name: self.remote_field_name@,
            relation_type: self.relation_type,
            eager_fetch: self.eager_fetch,
            nullable: self.nullable,
        }
    }
}

/// A column of an entity: one value per row, or a list of values per row.
#[derive(Clone, Debug, PartialEq, Eq)]
pub struct EntityField {
    pub name: String,
    /// The type of the value, or of each item of the list.
    pub field_type: EntityFieldType,
    /// For a list column, whether every row must hold a list.
    pub list: Option<bool>,
}

/// What a [`EntityField`] holds, as mathematical values.
#[verifier::ext_equal]
pub struct EntityFieldView {
    pub name: Seq<char>,
    pub field_type: EntityFieldType,
    pub list: Option<bool>,
}

impl View for EntityField {
    type V = EntityFieldView;

    open spec fn view(&self) -> EntityFieldView {
        EntityFieldView { name: self.name@, field_type: self.field_type, list: self.list }
    }
}

impl EntityFieldView {
    /// A list column holds values that lists can hold.
    pub open spec fn valid(self) -> bool {
        self.list is Some ==> self.field_type.spec_fits_list()
    }
}

impl EntityField {
    /// A column with one value per row.
    pub fn create_field(name: String, field_type: EntityFieldType) -> (field: EntityField)
        ensures
            field@ == (EntityFieldView { name: name@, field_type, list: None }),
    {
        EntityField { name, field_type, list: None }
    }

    /// A column with a list of values per row. Refused where lists cannot
    /// hold values of the element type.
    pub fn create_list_field(
        name: String,
        required: bool,
        element_type: EntityFieldType,
    ) -> (result: Result<EntityField, SchemaError>)
        ensures
            result is Ok <==> element_type.spec_fits_list(),
            result matches Err(error) ==> error == SchemaError::IncompatibleListElement,
            result matches Ok(field) ==> field@ == (EntityFieldView {
                name: name@,
                field_type: element_type,
                list: Some(required),
            }),
    {
        if element_type.fits_list() {
            Ok(EntityField { name, field_type: element_type, list: Some(required) })
        } else {
            Err(SchemaError::IncompatibleListElement)
        }
    }
}

/// The encoding recommended for the column `column`.
#[derive(Clone, Debug, PartialEq, Eq)]
pub struct EncodingHint {
    pub column: String,
    pub encoding: EntityFieldEncoding,
}

/// What a [`EncodingHint`] holds, as mathematical values.
#[verifier::ext_equal]
pub struct EncodingHintView {
    pub column: Seq<char>,
    pub encoding: EntityFieldEncoding,
}

impl View for EncodingHint {
    type V = EncodingHintView;

    open spec fn view(&self) -> EncodingHintView {
        EncodingHintView { column: self.column@, encoding: self.encoding }
    }
}

/// A table: its name, its relations to other tables, its columns and the
/// encodings recommended for them.
#[derive(Clone, Debug, PartialEq, Eq)]
pub struct Entity {
    pub name: String,
    pub relations: Vec<EntityRelation>,
    pub fields: Vec<EntityField>,
    pub encodings: Vec<EncodingHint>,
}

/// What a [`Entity`] holds, as mathematical values.
#[verifier::ext_equal]
pub struct EntityView {
    pub name: Seq<char>,
    pub relations: Seq<EntityRelationView>,
    pub fields: Seq<EntityFieldView>,
    pub encodings: Seq<EncodingHintView>,
}

impl View for Entity {
    type V = EntityView;

    open spec fn view(&self) -> EntityView {
        EntityView {
            name: self.name@,
            relations: seq_view(self.relations),
            fields: seq_view(self.fields),
            encodings: seq_view(self.encodings),
        }
    }
}

impl Entity {
    /// A table of this name with these relations, columns and encodings.
    pub fn new(
        name: String,
        relations: Vec<EntityRelation>,
        fields: Vec<EntityField>,
        encodings: Vec<EncodingHint>,
    ) -> (entity: Entity)
        ensures
            entity@ == (EntityView {
                name: name@,
                relations: seq_view(relations),
                fields: seq_view(fields),
                encodings: seq_view(encodings),
            }),
    {
        Entity { name, relations, fields, encodings }
    }
}

impl EntityView {
    /// Every list column of the entity holds values that lists can hold.
    pub open spec fn fields_valid(self) -> bool {
        forall|i: int| 0 <= i < self.fields.len() ==> (#[trigger] self.fields[i]).valid()
    }
}

/// An entity of this name is declared.
pub open spec fn declares(entities: Seq<EntityView>, name: Seq<char>) -> bool {
    exists|i: int| 0 <= i < entities.len() && (#[trigger] entities[i]).name == name
}

/// Every list column of every entity holds values that lists can hold.
pub open spec fn all_fields_valid(entities: Seq<EntityView>) -> bool {
    forall|i: int| 0 <= i < entities.len() ==> (#[trigger] entities[i]).fields_valid()
}

/// Every relation of the entity points to a declared entity.
pub open spec fn relations_resolve(entities: Seq<EntityView>, entity: EntityView) -> bool {
    forall|j: int|
        0 <= j < entity.relations.len() ==> declares(
            entities,
            (#[trigger] entity.relations[j]).remote_entity_name,
        )
}

/// Every relation of every entity points to a declared entity.
pub open spec fn all_relations_resolve(entities: Seq<EntityView>) -> bool {
    forall|i: int|
        0 <= i < entities.len() ==> relations_resolve(entities, #[trigger] entities[i])
}

/// Whether the entities make a schema, and if not, why.
pub open spec fn schema_result(entities: Seq<EntityView>) -> Result<(), SchemaError> {
    if !all_fields_valid(entities) {
        Err(SchemaError::IncompatibleListElement)
    } else if !all_relations_resolve(entities) {
        Err(SchemaError::UndeclaredEntity)
    } else {
        Ok(())
    }
}

/// A set of entities that has been found consistent. Read-only once made.
#[derive(Clone, Debug, PartialEq, Eq)]
pub struct SchemaRegistry {
    entities: Vec<Entity>,
}

impl View for SchemaRegistry {
    type V = Seq<EntityView>;

    closed spec fn view(&self) -> Seq<EntityView> {
        seq_view(self.entities)
    }
}

/// Every list column of the entity holds values that lists can hold.
fn check_fields(entity: &Entity) -> (valid: bool)
    ensures
        valid == entity@.fields_valid(),
{
    let mut i: usize = 0;
    while i < entity.fields.len()
        invariant
            i <= entity.fields.len(),
            forall|k: int| 0 <= k < i ==> (#[trigger] entity@.fields[k]).valid(),
        decreases entity.fields.len() - i,
    {
        let field = &entity.fields[i];
        if field.list.is_some() && !field.field_type.fits_list() {
            assert(!entity@.fields[i as int].valid());
            return false;
        }
        i = i + 1;
    }
    true
}

/// An entity of this name is declared.
fn check_declared(entities: &Vec<Entity>, name: &String) -> (declared: bool)
    ensures
        declared == declares(seq_view(*entities), name@),
{
    let mut i: usize = 0;
    while i < entities.len()
        invariant
            i <= entities.len(),
            forall|k: int| 0 <= k < i ==> (#[trigger] seq_view(*entities)[k]).name != name@,
        decreases entities.len() - i,
    {
        if entities[i].name == *name {
            assert(seq_view(*entities)[i as int].name == name@);
            return true;
        }
        i = i + 1;
    }
    false
}

/// Every relation of the entity points to a declared entity.
fn check_relations(entities: &Vec<Entity>, entity: &Entity) -> (resolved: bool)
    ensures
        resolved == relations_resolve(seq_view(*entities), entity@),
{
    let mut j: usize = 0;
    while j < entity.relations.len()
        invariant
            j <= entity.relations.len(),
            forall|k: int|
                0 <= k < j ==> declares(
                    seq_view(*entities),
                    (#[trigger] entity@.relations[k]).remote_entity_name,
                ),
        decreases entity.relations.len() - j,
    {
        if !check_declared(entities, &entity.relations[j].remote_entity_name) {
            assert(!declares(
                seq_view(*entities),
                entity@.relations[j as int].remote_entity_name,
            ));
            return false;
        }
        j = j + 1;
    }
    true
}

impl SchemaRegistry {
    /// Makes a registry of the entities, or says why they are no schema: a
    /// list column holds values that lists cannot hold, or a relation
    /// points to an entity that is not among them.
    pub fn new(entities: Vec<Entity>) -> (result: Result<SchemaRegistry, SchemaError>)
        ensures
            result is Ok <==> schema_result(seq_view(entities)) is Ok,
            result matches Err(error) ==> schema_result(seq_view(entities)) == Err::<
                (),
                SchemaError,
            >(error),
            result matches Ok(registry) ==> registry@ == seq_view(entities),
    {
        let mut i: usize = 0;
        while i < entities.len()
            invariant
                i <= entities.len(),
                forall|k: int| 0 <= k < i ==> (#[trigger] seq_view(entities)[k]).fields_valid(),
            decreases entities.len() - i,
        {
            if !check_fields(&entities[i]) {
                assert(!seq_view(entities)[i as int].fields_valid());
                return Err(SchemaError::IncompatibleListElement);
            }
            i = i + 1;
        }
        assert(all_fields_valid(seq_view(entities)));
        let mut i: usize = 0;
        while i < entities.len()
            invariant
                i <= entities.len(),
                all_fields_valid(seq_view(entities)),
                forall|k: int|
                    0 <= k < i ==> relations_resolve(
                        seq_view(entities),
                        #[trigger] seq_view(entities)[k],
                    ),
            decreases entities.len() - i,
        {
            if !check_relations(&entities, &entities[i]) {
                assert(!relations_resolve(seq_view(entities), seq_view(entities)[i as int]));
                return Err(SchemaError::UndeclaredEntity);
            }
            i = i + 1;
        }
        Ok(SchemaRegistry { entities })
    }

    /// The entities of the schema, in the order of their declaration.
    pub fn entities(&self) -> (entities: &Vec<Entity>)
        ensures
            seq_view(*entities) == self@,
    {
        &self.entities
    }
}

} // verus!
