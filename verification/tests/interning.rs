use semantic::ids::{GenericArgumentId, ModuleId, SyntaxStablePtrId, TraitId, TypeId};
use semantic::interner::ConcreteTraitInterner;
use semantic::trt::ConcreteTraitLongId;

const INT: GenericArgumentId = GenericArgumentId::Type(TypeId(1));
const BOOL: GenericArgumentId = GenericArgumentId::Type(TypeId(2));

fn trait_t() -> TraitId {
    TraitId { module_id: ModuleId(1), stable_ptr: SyntaxStablePtrId(10) }
}

fn trait_u() -> TraitId {
    TraitId { module_id: ModuleId(1), stable_ptr: SyntaxStablePtrId(20) }
}

fn concrete(trait_id: TraitId, generic_args: Vec<GenericArgumentId>) -> ConcreteTraitLongId {
    ConcreteTraitLongId { trait_id, generic_args }
}

#[test]
fn interning_twice_gives_the_identical_handle() {
    let mut interner = ConcreteTraitInterner::new();
    let first = interner.intern_concrete_trait(concrete(trait_t(), vec![INT, INT]));
    let second = interner.intern_concrete_trait(concrete(trait_t(), vec![INT, INT]));
    let other = interner.intern_concrete_trait(concrete(trait_t(), vec![INT, BOOL]));

    assert_eq!(first, second);
    assert_ne!(first, other);
    assert_eq!(interner.len(), 2);
}

#[test]
fn lookup_returns_what_was_interned() {
    let mut interner = ConcreteTraitInterner::new();
    let values = vec![
        concrete(trait_t(), vec![]),
        concrete(trait_t(), vec![INT]),
        concrete(trait_t(), vec![INT, BOOL]),
        concrete(trait_u(), vec![INT, BOOL]),
        concrete(trait_u(), vec![BOOL, INT, BOOL]),
    ];
    for value in &values {
        let id = interner.intern_concrete_trait(value.clone());
        assert_eq!(&interner.lookup_intern_concrete_trait(id), value);
    }
}

#[test]
fn handles_are_equal_exactly_when_the_values_are() {
    let values = vec![
        concrete(trait_t(), vec![]),
        concrete(trait_t(), vec![INT]),
        concrete(trait_t(), vec![BOOL]),
        concrete(trait_t(), vec![INT, BOOL]),
        concrete(trait_t(), vec![BOOL, INT]),
        concrete(trait_t(), vec![INT, INT]),
        concrete(trait_u(), vec![INT, INT]),
        concrete(trait_u(), vec![]),
        concrete(trait_t(), vec![INT, BOOL]),
        concrete(trait_t(), vec![]),
    ];
    let mut interner = ConcreteTraitInterner::new();
    let ids: Vec<_> =
        values.iter().map(|value| interner.intern_concrete_trait(value.clone())).collect();

    for i in 0..values.len() {
        for j in 0..values.len() {
            assert_eq!(ids[i] == ids[j], values[i] == values[j], "values {} and {}", i, j);
        }
    }
    assert_eq!(interner.len(), 8);
}

#[test]
fn argument_order_is_part_of_the_value() {
    let mut interner = ConcreteTraitInterner::new();
    let int_bool = interner.intern_concrete_trait(concrete(trait_t(), vec![INT, BOOL]));
    let bool_int = interner.intern_concrete_trait(concrete(trait_t(), vec![BOOL, INT]));

    assert_ne!(int_bool, bool_int);
    assert_eq!(interner.lookup_intern_concrete_trait(int_bool).generic_args, vec![INT, BOOL]);
    assert_eq!(interner.lookup_intern_concrete_trait(bool_int).generic_args, vec![BOOL, INT]);
}

#[test]
fn the_trait_is_part_of_the_value() {
    let mut interner = ConcreteTraitInterner::new();
    let of_t = interner.intern_concrete_trait(concrete(trait_t(), vec![INT]));
    let of_u = interner.intern_concrete_trait(concrete(trait_u(), vec![INT]));

    assert_ne!(of_t, of_u);
    assert_eq!(interner.lookup_intern_concrete_trait(of_t).trait_id, trait_t());
    assert_eq!(interner.lookup_intern_concrete_trait(of_u).trait_id, trait_u());
}

#[test]
fn handles_survive_later_interning() {
    let mut interner = ConcreteTraitInterner::new();
    let early = interner.intern_concrete_trait(concrete(trait_t(), vec![INT, INT]));
    for n in 0..100u64 {
        let arg = GenericArgumentId::Type(TypeId(100 + n));
        interner.intern_concrete_trait(concrete(trait_u(), vec![arg]));
    }

    assert_eq!(
        interner.lookup_intern_concrete_trait(early),
        concrete(trait_t(), vec![INT, INT])
    );
    assert_eq!(interner.intern_concrete_trait(concrete(trait_t(), vec![INT, INT])), early);
    assert_eq!(interner.len(), 101);
}

#[test]
fn interning_a_known_value_adds_nothing() {
    let mut interner = ConcreteTraitInterner::new();
    assert_eq!(interner.len(), 0);
    interner.intern_concrete_trait(concrete(trait_t(), vec![INT]));
    assert_eq!(interner.len(), 1);
    interner.intern_concrete_trait(concrete(trait_t(), vec![INT]));
    interner.intern_concrete_trait(concrete(trait_t(), vec![INT]));
    assert_eq!(interner.len(), 1);
    interner.intern_concrete_trait(concrete(trait_t(), vec![]));
    assert_eq!(interner.len(), 2);
}

#[test]
fn get_finds_a_handle_without_interning() {
    let mut interner = ConcreteTraitInterner::new();
    assert_eq!(interner.get(&concrete(trait_t(), vec![INT])), None);
    let id = interner.intern_concrete_trait(concrete(trait_t(), vec![INT]));

    assert_eq!(interner.get(&concrete(trait_t(), vec![INT])), Some(id));
    assert_eq!(interner.get(&concrete(trait_t(), vec![BOOL])), None);
    assert_eq!(interner.get(&concrete(trait_u(), vec![INT])), None);
    assert_eq!(interner.len(), 1);
}

#[test]
fn only_handles_given_out_are_known() {
    let mut one = ConcreteTraitInterner::new();
    let mut two = ConcreteTraitInterner::new();
    let a = one.intern_concrete_trait(concrete(trait_t(), vec![INT]));
    let b = one.intern_concrete_trait(concrete(trait_t(), vec![BOOL]));
    let c = two.intern_concrete_trait(concrete(trait_t(), vec![INT]));

    assert!(one.contains_id(a));
    assert!(one.contains_id(b));
    assert!(two.contains_id(c));
    assert!(!two.contains_id(b));
    assert!(!ConcreteTraitInterner::new().contains_id(a));
}

#[test]
fn same_as_compares_by_value() {
    let value = concrete(trait_t(), vec![INT, BOOL]);
    assert!(value.same_as(&concrete(trait_t(), vec![INT, BOOL])));
    assert!(value.same_as(&value.clone()));
    assert!(!value.same_as(&concrete(trait_t(), vec![INT, INT])));
    assert!(!value.same_as(&concrete(trait_t(), vec![INT])));
    assert!(!value.same_as(&concrete(trait_t(), vec![INT, BOOL, INT])));
    assert!(!value.same_as(&concrete(trait_u(), vec![INT, BOOL])));
    assert!(concrete(trait_t(), vec![]).same_as(&concrete(trait_t(), vec![])));
}
