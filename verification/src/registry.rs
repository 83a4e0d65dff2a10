//! The operation registry: one computation definition per registered
//! operation, stored under the operation's slot key and never replaced.

use vstd::prelude::*;
use crate::catalog::{
    input_schema, kind_named, output_schema, schema_for, ArgumentSlotType, OperationKind,
    OutputFieldType,
};
use crate::slot::{collision_free, slot_key_of, SlotKey};

verus! {

/// Where a circuit is to be fetched from, the digest that vouches for it, and
/// the signature that it declares.
#[derive(Debug, PartialEq, Eq)]
pub struct ExternalCircuitReference {
    /// The location of the compiled circuit.
    pub source: String,
    /// The digest of the compiled circuit.
    pub hash: [u8; 32],
    /// The parameters that the circuit declares, in order.
    pub parameters: Vec<ArgumentSlotType>,
    /// The outputs that the circuit declares, in order.
    pub outputs: Vec<OutputFieldType>,
}

/// A circuit reference as a mathematical value.
pub struct CircuitReferenceView {
    pub source: Seq<char>,
    pub hash: Seq<u8>,
    pub parameters: Seq<ArgumentSlotType>,
    pub outputs: Seq<OutputFieldType>,
}

impl View for ExternalCircuitReference {
    type V = CircuitReferenceView;

    open spec fn view(&self) -> CircuitReferenceView {
        CircuitReferenceView {
            source: self.source@,
            hash: self.hash@,
            parameters: self.parameters@,
            outputs: self.outputs@,
        }
    }
}

/// The binding of an operation to its circuit and type signature.
#[derive(Debug, PartialEq, Eq)]
pub struct ComputationDefinition {
    pub kind: OperationKind,
    pub slot_key: SlotKey,
    pub circuit_ref: ExternalCircuitReference,
    pub input_schema: Vec<ArgumentSlotType>,
    pub output_schema: Vec<OutputFieldType>,
}

/// A computation definition as a mathematical value.
pub struct DefinitionView {
    pub kind: OperationKind,
    pub slot_key: SlotKey,
    pub circuit_ref: CircuitReferenceView,
    pub input_schema: Seq<ArgumentSlotType>,
    pub output_schema: Seq<OutputFieldType>,
}

impl View for ComputationDefinition {
    type V = DefinitionView;

    open spec fn view(&self) -> DefinitionView {
        DefinitionView {
            kind: self.kind,
            slot_key: self.slot_key,
            circuit_ref: self.circuit_ref@,
            input_schema: self.input_schema@,
            output_schema: self.output_schema@,
        }
    }
}

/// Why a registration was refused.
#[derive(Clone, Copy, Debug, PartialEq, Eq, Structural)]
pub enum RegistryError {
    /// The catalog has no operation of the given name.
    UnknownOperation,
    /// The circuit's declared signature differs from the operation's schema.
    SchemaMismatch,
    /// The slot already holds another definition.
    AlreadyRegistered,
}

/// Whether a circuit declares exactly the parameters and outputs that the
/// catalog gives for the operation.
pub open spec fn signature_matches(kind: OperationKind, circuit_ref: CircuitReferenceView) -> bool {
    circuit_ref.parameters == input_schema(kind) && circuit_ref.outputs == output_schema(kind)
}

/// The definition that binds an operation to a circuit.
pub open spec fn definition_for(
    kind: OperationKind,
    circuit_ref: CircuitReferenceView,
) -> DefinitionView {
    DefinitionView {
        kind,
        slot_key: slot_key_of(kind),
        circuit_ref,
        input_schema: input_schema(kind),
        output_schema: output_schema(kind),
    }
}

/// Whether a definition is one that registration can have produced.
pub open spec fn definition_valid(definition: DefinitionView) -> bool {
    &&& definition == definition_for(definition.kind, definition.circuit_ref)
    &&& signature_matches(definition.kind, definition.circuit_ref)
}

/// Whether every definition of a registry is valid and stored under its own
/// slot key.
pub open spec fn registry_valid(registry: Map<SlotKey, DefinitionView>) -> bool {
    forall|key: SlotKey| #[trigger]
        registry.contains_key(key) ==> registry[key].slot_key == key && definition_valid(
            registry[key],
        )
}

/// Whether an operation has a definition in the registry.
pub open spec fn registered(registry: Map<SlotKey, DefinitionView>, kind: OperationKind) -> bool {
    registry.contains_key(slot_key_of(kind)) && registry[slot_key_of(kind)].kind == kind
}

/// What registering an operation with a circuit answers:
/// - where the slot holds this very definition, success;
/// - where it holds another, `AlreadyRegistered`;
/// - where it is free and the circuit's signature differs from the schema,
///   `SchemaMismatch`;
/// - else success.
pub open spec fn register_result(
    registry: Map<SlotKey, DefinitionView>,
    kind: OperationKind,
    circuit_ref: CircuitReferenceView,
) -> Result<(), RegistryError> {
    let key = slot_key_of(kind);
    if registry.contains_key(key) {
        if registry[key] == definition_for(kind, circuit_ref) {
            Ok(())
        } else {
            Err(RegistryError::AlreadyRegistered)
        }
    } else if !signature_matches(kind, circuit_ref) {
        Err(RegistryError::SchemaMismatch)
    } else {
        Ok(())
    }
}

/// The registry after registering an operation with a circuit: on success
/// the slot holds the definition, on failure nothing has changed.
pub open spec fn register_next(
    registry: Map<SlotKey, DefinitionView>,
    kind: OperationKind,
    circuit_ref: CircuitReferenceView,
) -> Map<SlotKey, DefinitionView> {
    if register_result(registry, kind, circuit_ref) is Ok {
        registry.insert(slot_key_of(kind), definition_for(kind, circuit_ref))
    } else {
        registry
    }
}

/// What registering by name answers: `UnknownOperation` where the catalog has
/// no operation of that name, else what registering that operation answers.
pub open spec fn register_named_result(
    registry: Map<SlotKey, DefinitionView>,
    name: Seq<char>,
    circuit_ref: CircuitReferenceView,
) -> Result<(), RegistryError> {
    match kind_named(name) {
        Some(kind) => register_result(registry, kind, circuit_ref),
        None => Err(RegistryError::UnknownOperation),
    }
}

/// The registry after registering by name.
pub open spec fn register_named_next(
    registry: Map<SlotKey, DefinitionView>,
    name: Seq<char>,
    circuit_ref: CircuitReferenceView,
) -> Map<SlotKey, DefinitionView> {
    match kind_named(name) {
        Some(kind) => register_next(registry, kind, circuit_ref),
        None => registry,
    }
}

/// Whether two lists of slot types are the same.
pub fn same_slots(a: &Vec<ArgumentSlotType>, b: &Vec<ArgumentSlotType>) -> (same: bool)
    ensures
        same == (a@ == b@),
{
    if a.len() != b.len() {
        return false;
    }
    let mut i: usize = 0;
    while i < a.len()
        invariant
            i <= a.len(),
            a.len() == b.len(),
            forall|j: int| 0 <= j < i ==> a@[j] == b@[j],
        decreases a.len() - i,
    {
        if a[i] != b[i] {
            return false;
        }
        i = i + 1;
    }
    assert(a@ =~= b@);
    true
}

/// Whether two lists of field types are the same.
pub fn same_fields(a: &Vec<OutputFieldType>, b: &Vec<OutputFieldType>) -> (same: bool)
    ensures
        same == (a@ == b@),
{
    if a.len() != b.len() {
        return false;
    }
    let mut i: usize = 0;
    while i < a.len()
        invariant
            i <= a.len(),
            a.len() == b.len(),
            forall|j: int| 0 <= j < i ==> a@[j] == b@[j],
        decreases a.len() - i,
    {
        if a[i] != b[i] {
            return false;
        }
        i = i + 1;
    }
    assert(a@ =~= b@);
    true
}

/// Whether two 32-byte strings are the same.
pub fn same_bytes(a: &[u8; 32], b: &[u8; 32]) -> (same: bool)
    ensures
        same == (a@ == b@),
{
    let mut i: usize = 0;
    while i < 32
        invariant
            i <= 32,
            forall|j: int| 0 <= j < i ==> a@[j] == b@[j],
        decreases 32 - i,
    {
        if a[i] != b[i] {
            return false;
        }
        i = i + 1;
    }
    assert(a@ =~= b@);
    true
}

/// A copy of a list of slot types.
pub fn copy_slots(slots: &Vec<ArgumentSlotType>) -> (copy: Vec<ArgumentSlotType>)
    ensures
        copy@ == slots@,
{
    let mut copy: Vec<ArgumentSlotType> = Vec::new();
    let mut i: usize = 0;
    while i < slots.len()
        invariant
            i <= slots.len(),
            copy@ =~= slots@.take(i as int),
        decreases slots.len() - i,
    {
        copy.push(slots[i]);
        i = i + 1;
    }
    copy
}

/// A copy of a list of field types.
pub fn copy_fields(fields: &Vec<OutputFieldType>) -> (copy: Vec<OutputFieldType>)
    ensures
        copy@ == fields@,
{
    let mut copy: Vec<OutputFieldType> = Vec::new();
    let mut i: usize = 0;
    while i < fields.len()
        invariant
            i <= fields.len(),
            copy@ =~= fields@.take(i as int),
        decreases fields.len() - i,
    {
        copy.push(fields[i]);
        i = i + 1;
    }
    copy
}

impl ExternalCircuitReference {
    /// A copy of the reference.
    pub fn duplicate(&self) -> (copy: ExternalCircuitReference)
        ensures
            copy@ == self@,
    {
        ExternalCircuitReference {
            source: self.source.clone(),
            hash: self.hash,
            parameters: copy_slots(&self.parameters),
            outputs: copy_fields(&self.outputs),
        }
    }

    /// Whether two references name the same circuit with the same signature.
    pub fn same_as(&self, other: &ExternalCircuitReference) -> (same: bool)
        ensures
            same == (self@ == other@),
    {
        self.source == other.source && same_bytes(&self.hash, &other.hash) && same_slots(
            &self.parameters,
            &other.parameters,
        ) && same_fields(&self.outputs, &other.outputs)
    }
}

impl ComputationDefinition {
    /// The definition that binds an operation to a circuit: under the
    /// operation's slot key, with the operation's schemas.
    pub fn new(kind: OperationKind, circuit_ref: ExternalCircuitReference) -> (definition:
        ComputationDefinition)
        ensures
            definition@ == definition_for(kind, circuit_ref@),
    {
        let schema = schema_for(kind);
        ComputationDefinition {
            kind,
            slot_key: SlotKey::for_kind(kind),
            circuit_ref,
            input_schema: schema.input_schema,
            output_schema: schema.output_schema,
        }
    }

    /// Whether two definitions are the same in every part.
    pub fn same_as(&self, other: &ComputationDefinition) -> (same: bool)
        ensures
            same == (self@ == other@),
    {
        self.kind == other.kind && self.slot_key == other.slot_key && self.circuit_ref.same_as(
            &other.circuit_ref,
        ) && same_slots(&self.input_schema, &other.input_schema) && same_fields(
            &self.output_schema,
            &other.output_schema,
        )
    }

    /// Whether the circuit declares exactly the parameters and outputs of the
    /// definition's schemas.
    pub fn signature_agrees(&self) -> (agrees: bool)
        ensures
            agrees == (self.circuit_ref@.parameters == self@.input_schema
                && self.circuit_ref@.outputs == self@.output_schema),
    {
        same_slots(&self.circuit_ref.parameters, &self.input_schema) && same_fields(
            &self.circuit_ref.outputs,
            &self.output_schema,
        )
    }
}

/// The table of computation definitions, keyed by slot key.
pub struct OperationRegistry {
    entries: Vec<ComputationDefinition>,
}

impl OperationRegistry {
    spec fn holds(&self, key: SlotKey) -> bool {
        exists|i: int| 0 <= i < self.entries.len() && (#[trigger] self.entries[i]).slot_key == key
    }

    spec fn place_of(&self, key: SlotKey) -> int {
        choose|i: int| 0 <= i < self.entries.len() && (#[trigger] self.entries[i]).slot_key == key
    }

    /// The registry as a map from slot key to definition.
    pub closed spec fn view(&self) -> Map<SlotKey, DefinitionView> {
        Map::new(|key: SlotKey| self.holds(key), |key: SlotKey| self.entries[self.place_of(key)]@)
    }

    /// No slot key occurs twice.
    pub closed spec fn wf(&self) -> bool {
        forall|i: int, j: int|
            0 <= i < j < self.entries.len() ==> (#[trigger] self.entries[i]).slot_key != (
            #[trigger] self.entries[j]).slot_key
    }

    proof fn lemma_entry(&self, i: int)
        requires
            self.wf(),
            0 <= i < self.entries.len(),
        ensures
            self@.contains_key(self.entries[i].slot_key),
            self@[self.entries[i].slot_key] == self.entries[i]@,
    {
        let key = self.entries[i].slot_key;
        assert(self.holds(key));
        let j = self.place_of(key);
        assert(self.entries[j].slot_key == key);
        if i < j {
            assert(self.entries[i].slot_key != self.entries[j].slot_key);
        }
        if j < i {
            assert(self.entries[j].slot_key != self.entries[i].slot_key);
        }
    }

    /// Every definition of a well-formed registry is stored under its own
    /// slot key.
    pub proof fn lemma_stored_under_own_key(&self)
        requires
            self.wf(),
        ensures
            forall|key: SlotKey| #[trigger] self@.contains_key(key) ==> self@[key].slot_key == key,
    {
        assert forall|key: SlotKey| #[trigger] self@.contains_key(key) implies self@[key].slot_key
            == key by {
            let j = self.place_of(key);
            assert(self.entries[j].slot_key == key);
            self.lemma_entry(j);
        }
    }

    /// A registry without definitions.
    pub fn new() -> (registry: OperationRegistry)
        ensures
            registry.wf(),
            registry@ == Map::<SlotKey, DefinitionView>::empty(),
    {
        let registry = OperationRegistry { entries: Vec::new() };
        assert(registry@ =~= Map::<SlotKey, DefinitionView>::empty());
        registry
    }

    /// The number of definitions.
    pub fn len(&self) -> (count: usize)
        requires
            self.wf(),
        ensures
            count == self@.dom().len(),
            self@.dom().finite(),
    {
        proof {
            self.lemma_domain_size(self.entries.len() as int);
            assert(self.keys_below(self.entries.len() as int) =~= self@.dom());
        }
        self.entries.len()
    }

    spec fn keys_below(&self, n: int) -> Set<SlotKey> {
        Set::new(
            |key: SlotKey|
                exists|i: int| 0 <= i < n && (#[trigger] self.entries[i]).slot_key == key,
        )
    }

    proof fn lemma_domain_size(&self, n: int)
        requires
            self.wf(),
            0 <= n <= self.entries.len(),
        ensures
            self.keys_below(n).finite(),
            self.keys_below(n).len() == n,
        decreases n,
    {
        if n == 0 {
            assert(self.keys_below(0) =~= Set::<SlotKey>::empty());
        } else {
            self.lemma_domain_size(n - 1);
            let key = self.entries[n - 1].slot_key;
            assert(!self.keys_below(n - 1).contains(key)) by {
                if self.keys_below(n - 1).contains(key) {
                    let i = choose|i: int|
                        0 <= i < n - 1 && (#[trigger] self.entries[i]).slot_key == key;
                    assert(self.entries[i].slot_key != self.entries[n - 1].slot_key);
                }
            }
            assert(self.keys_below(n) =~= self.keys_below(n - 1).insert(key)) by {
                assert forall|k: SlotKey| self.keys_below(n).contains(k) implies self.keys_below(
                    n - 1,
                ).insert(key).contains(k) by {
                    let i = choose|i: int|
                        0 <= i < n && (#[trigger] self.entries[i]).slot_key == k;
                    if i < n - 1 {
                        assert(self.keys_below(n - 1).contains(k));
                    }
                }
                assert forall|k: SlotKey|
                    self.keys_below(n - 1).insert(key).contains(k) implies self.keys_below(
                    n,
                ).contains(k) by {
                    if k == key {
                        assert(self.entries[n - 1].slot_key == k);
                    } else {
                        let i = choose|i: int|
                            0 <= i < n - 1 && (#[trigger] self.entries[i]).slot_key == k;
                        assert(self.entries[i].slot_key == k);
                    }
                }
            }
        }
    }

    fn position(&self, key: SlotKey) -> (found: Option<usize>)
        requires
            self.wf(),
        ensures
            match found {
                Some(i) => i < self.entries.len() && self.entries[i as int].slot_key == key,
                None => !self@.contains_key(key),
            },
    {
        let mut i: usize = 0;
        while i < self.entries.len()
            invariant
                i <= self.entries.len(),
                forall|j: int| 0 <= j < i ==> (#[trigger] self.entries[j]).slot_key != key,
            decreases self.entries.len() - i,
        {
            if self.entries[i].slot_key == key {
                return Some(i);
            }
            i = i + 1;
        }
        None
    }

    /// The definition stored under a slot key, if there is one.
    pub fn get_definition(&self, key: SlotKey) -> (found: Option<&ComputationDefinition>)
        requires
            self.wf(),
        ensures
            match found {
                Some(definition) => self@.contains_key(key) && self@[key] == definition@
                    && definition.slot_key == key,
                None => !self@.contains_key(key),
            },
    {
        match self.position(key) {
            Some(i) => {
                proof {
                    self.lemma_entry(i as int);
                }
                Some(&self.entries[i])
            },
            None => None,
        }
    }

    /// Stores a definition under its slot key unless the slot holds another.
    /// Returns whether the slot now holds the definition: `true` where it was
    /// free or held this very definition, `false`, with nothing changed,
    /// where it held another.
    pub fn put_definition_if_absent_or_identical(&mut self, definition: ComputationDefinition) -> (stored:
        bool)
        requires
            old(self).wf(),
        ensures
            final(self).wf(),
            stored == (!old(self)@.contains_key(definition.slot_key) || old(self)@[definition.slot_key]
                == definition@),
            stored ==> final(self)@ == old(self)@.insert(definition.slot_key, definition@),
            !stored ==> final(self)@ == old(self)@,
            registry_valid(old(self)@) && definition_valid(definition@) ==> registry_valid(
                final(self)@,
            ),
    {
        let key = definition.slot_key;
        match self.position(key) {
            Some(i) => {
                proof {
                    self.lemma_entry(i as int);
                }
                let same = self.entries[i].same_as(&definition);
                if same {
                    assert(self@.insert(key, definition@) =~= self@);
                }
                same
            },
            None => {
                let ghost added = definition@;
                self.entries.push(definition);
                proof {
                    let before = *old(self);
                    let after = *self;
                    assert forall|i: int| 0 <= i < before.entries.len() implies (
                    #[trigger] before.entries[i]).slot_key != key by {
                        before.lemma_entry(i);
                    }
                    assert(after.wf());
                    assert forall|k: SlotKey|
                        after@.contains_key(k) <==> before@.insert(key, added).contains_key(
                            k,
                        ) by {
                        if after.holds(k) {
                            let j = after.place_of(k);
                            if j < before.entries.len() {
                                assert(before.entries[j].slot_key == k);
                            }
                        }
                        if before.holds(k) {
                            let j = before.place_of(k);
                            assert(after.entries[j].slot_key == k);
                        }
                        if k == key {
                            assert(after.entries[before.entries.len() as int].slot_key == k);
                        }
                    }
                    assert forall|k: SlotKey| after@.contains_key(k) implies after@[k]
                        == before@.insert(key, added)[k] by {
                        let j = after.place_of(k);
                        after.lemma_entry(j);
                        if j < before.entries.len() {
                            before.lemma_entry(j);
                        }
                    }
                    assert(after@ =~= before@.insert(key, added));
                }
                true
            },
        }
    }

    /// The definition registered for an operation, if there is one.
    pub fn lookup(&self, kind: OperationKind) -> (found: Option<&ComputationDefinition>)
        requires
            self.wf(),
        ensures
            found is Some <==> registered(self@, kind),
            found matches Some(definition) ==> definition@ == self@[slot_key_of(kind)]
                && definition.kind == kind && definition.slot_key == slot_key_of(kind),
    {
        match self.get_definition(SlotKey::for_kind(kind)) {
            Some(definition) => {
                if definition.kind == kind {
                    Some(definition)
                } else {
                    None
                }
            },
            None => None,
        }
    }

    /// Whether an operation has a definition.
    pub fn is_registered(&self, kind: OperationKind) -> (yes: bool)
        requires
            self.wf(),
        ensures
            yes == registered(self@, kind),
    {
        self.lookup(kind).is_some()
    }

    /// Binds an operation to a circuit.
    ///
    /// Registering the same circuit again changes nothing and succeeds. A slot
    /// that holds another definition is never overwritten: the call fails with
    /// `AlreadyRegistered`. A circuit whose declared signature differs from the
    /// operation's schema is refused with `SchemaMismatch`.
    pub fn register(
        &mut self,
        kind: OperationKind,
        circuit_ref: ExternalCircuitReference,
    ) -> (result: Result<(), RegistryError>)
        requires
            old(self).wf(),
        ensures
            final(self).wf(),
            result == register_result(old(self)@, kind, circuit_ref@),
            final(self)@ == register_next(old(self)@, kind, circuit_ref@),
            registry_valid(old(self)@) ==> registry_valid(final(self)@),
    {
        proof {
            if registry_valid(old(self)@) {
                law_register_preserves(old(self)@, kind, circuit_ref@);
            }
        }
        let definition = ComputationDefinition::new(kind, circuit_ref);
        let taken = self.get_definition(definition.slot_key).is_some();
        if !taken && !definition.signature_agrees() {
            return Err(RegistryError::SchemaMismatch);
        }
        if self.put_definition_if_absent_or_identical(definition) {
            Ok(())
        } else {
            Err(RegistryError::AlreadyRegistered)
        }
    }

    /// Binds the operation of the given name to a circuit. Fails with
    /// `UnknownOperation` where the catalog has no operation of that name, and
    /// else as [`OperationRegistry::register`] does.
    pub fn register_named(&mut self, name: &str, circuit_ref: ExternalCircuitReference) -> (result:
        Result<(), RegistryError>)
        requires
            old(self).wf(),
        ensures
            final(self).wf(),
            result == register_named_result(old(self)@, name@, circuit_ref@),
            final(self)@ == register_named_next(old(self)@, name@, circuit_ref@),
            registry_valid(old(self)@) ==> registry_valid(final(self)@),
    {
        match OperationKind::from_name(name) {
            Some(kind) => self.register(kind, circuit_ref),
            None => Err(RegistryError::UnknownOperation),
        }
    }
}

/// Registering the same circuit a second time succeeds and changes nothing;
/// registering any other circuit for the same operation fails with
/// `AlreadyRegistered` and changes nothing.
pub proof fn law_register_twice(
    registry: Map<SlotKey, DefinitionView>,
    kind: OperationKind,
    circuit_ref: CircuitReferenceView,
    other: CircuitReferenceView,
)
    requires
        register_result(registry, kind, circuit_ref) is Ok,
    ensures
        ({
            let once = register_next(registry, kind, circuit_ref);
            &&& register_result(once, kind, circuit_ref) is Ok
            &&& register_next(once, kind, circuit_ref) == once
            &&& other != circuit_ref ==> register_result(once, kind, other) == Err::<
                (),
                RegistryError,
            >(RegistryError::AlreadyRegistered)
            &&& other != circuit_ref ==> register_next(once, kind, other) == once
        }),
{
    let once = register_next(registry, kind, circuit_ref);
    assert(once.insert(slot_key_of(kind), definition_for(kind, circuit_ref)) =~= once);
}

/// Registration keeps a registry valid and never changes or removes a
/// definition that it already holds.
pub proof fn law_register_preserves(
    registry: Map<SlotKey, DefinitionView>,
    kind: OperationKind,
    circuit_ref: CircuitReferenceView,
)
    requires
        registry_valid(registry),
    ensures
        registry_valid(register_next(registry, kind, circuit_ref)),
        forall|key: SlotKey| #[trigger]
            registry.contains_key(key) ==> register_next(registry, kind, circuit_ref).contains_key(
                key,
            ) && register_next(registry, kind, circuit_ref)[key] == registry[key],
        register_result(registry, kind, circuit_ref) is Ok ==> registered(
            register_next(registry, kind, circuit_ref),
            kind,
        ),
{
}

/// Where no two operations share a slot key, operations do not stand in
/// each other's way: an operation that is not registered can be registered
/// with any circuit whose signature matches its schema, whatever else the
/// registry holds.
pub proof fn law_free_slot_is_open(
    registry: Map<SlotKey, DefinitionView>,
    kind: OperationKind,
    circuit_ref: CircuitReferenceView,
)
    requires
        collision_free(),
        registry_valid(registry),
        !registered(registry, kind),
    ensures
        register_result(registry, kind, circuit_ref) is Ok <==> signature_matches(
            kind,
            circuit_ref,
        ),
        !signature_matches(kind, circuit_ref) ==> register_result(registry, kind, circuit_ref)
            == Err::<(), RegistryError>(RegistryError::SchemaMismatch),
{
    let key = slot_key_of(kind);
    if registry.contains_key(key) {
        assert(registry[key].slot_key == slot_key_of(registry[key].kind));
    }
}

} // verus!
