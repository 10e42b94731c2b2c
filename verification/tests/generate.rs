use zc::{
    check_passes, derive_dependant, generator_accepts, is_copy, is_dependant, no_interior_mut,
    parse_guard_type, Attr, CheckKind, Data, DeriveError, DeriveInput, Field, FieldCheck, Shape,
    Variant,
};

fn zc_attr(tokens: &[u8]) -> Attr {
    Attr {
        path: b"zc".to_vec(),
        tokens: tokens.to_vec(),
    }
}

fn plain_field(shape: Shape) -> Field {
    Field {
        shape,
        attrs: Vec::new(),
    }
}

fn plain_input(lifetime_count: usize, fields: Vec<Field>) -> DeriveInput {
    DeriveInput {
        name: b"MyStruct".to_vec(),
        lifetime_count,
        attrs: Vec::new(),
        data: Data::Struct(fields),
    }
}

#[test]
fn test_parse_guard_type_copy() {
    assert_eq!(parse_guard_type(b"(check = \"Copy\")"), Ok(CheckKind::Copy));
}

#[test]
fn test_parse_guard_type_default() {
    assert_eq!(
        parse_guard_type(b"(guard = \"Default\")"),
        Ok(CheckKind::Default)
    );
}

#[test]
fn test_parse_guard_type_unknown() {
    assert_eq!(
        parse_guard_type(b"(check = \"Clone\")"),
        Err(DeriveError::UnknownOptions)
    );
}

#[test]
fn test_derive_one_lifetime_struct() {
    let input = plain_input(
        1,
        vec![
            plain_field(Shape::Reference(Box::new(Shape::Primitive))),
            plain_field(Shape::Primitive),
        ],
    );
    let out = derive_dependant(input).unwrap();
    assert!(!out.fresh_lifetime);
    assert_eq!(
        out.checks,
        vec![
            FieldCheck {
                guard: CheckKind::Default,
                shape: Shape::Reference(Box::new(Shape::Primitive)),
            },
            FieldCheck {
                guard: CheckKind::Default,
                shape: Shape::Primitive,
            },
        ]
    );
}

#[test]
fn test_derive_zero_lifetimes_fresh() {
    let out = derive_dependant(plain_input(0, Vec::new())).unwrap();
    assert!(out.fresh_lifetime);
    assert!(out.checks.is_empty());
}

#[test]
fn test_derive_multi_lifetime_rejected() {
    let result = derive_dependant(plain_input(2, Vec::new()));
    assert_eq!(result.unwrap_err(), DeriveError::TooManyLifetimes { count: 2 });

    let result = derive_dependant(plain_input(3, Vec::new()));
    assert_eq!(result.unwrap_err(), DeriveError::TooManyLifetimes { count: 3 });
}

#[test]
fn test_derive_union_rejected() {
    let input = DeriveInput {
        name: b"MyUnion".to_vec(),
        lifetime_count: 1,
        attrs: Vec::new(),
        data: Data::Union,
    };
    assert_eq!(
        derive_dependant(input).unwrap_err(),
        DeriveError::UnionNotSupported
    );
}

#[test]
fn test_derive_unknown_option_rejected() {
    let input = DeriveInput {
        name: b"MyStruct".to_vec(),
        lifetime_count: 1,
        attrs: vec![zc_attr(b"(check = \"Send\")")],
        data: Data::Struct(Vec::new()),
    };
    assert_eq!(
        derive_dependant(input).unwrap_err(),
        DeriveError::UnknownOptions
    );
}

#[test]
fn test_field_attr_selects_copy_check() {
    // A field with `#[zc(check = "Copy")]` gets the Copy bound while its
    // neighbour keeps the default dependant bound.
    let copy_type = Shape::Declared {
        copy: true,
        interior_mut: false,
        dependant_impl: false,
    };
    let input = plain_input(
        1,
        vec![
            Field {
                shape: Shape::Reference(Box::new(copy_type)),
                attrs: vec![zc_attr(b"(check = \"Copy\")")],
            },
            plain_field(Shape::Primitive),
        ],
    );
    let out = derive_dependant(input).unwrap();
    assert_eq!(out.checks[0].guard, CheckKind::Copy);
    assert_eq!(out.checks[1].guard, CheckKind::Default);
}

#[test]
fn test_struct_attr_selects_copy_check_for_all() {
    let copy_type = Shape::Declared {
        copy: true,
        interior_mut: false,
        dependant_impl: false,
    };
    let input = DeriveInput {
        name: b"StructWithAllCopy".to_vec(),
        lifetime_count: 1,
        attrs: vec![zc_attr(b"(check = \"Copy\")")],
        data: Data::Struct(vec![
            Field {
                shape: Shape::Reference(Box::new(copy_type)),
                attrs: Vec::new(),
            },
            plain_field(Shape::Primitive),
        ]),
    };
    let out = derive_dependant(input).unwrap();
    assert_eq!(out.checks[0].guard, CheckKind::Copy);
    assert_eq!(out.checks[1].guard, CheckKind::Copy);
}

#[test]
fn test_field_attr_guard_default() {
    let input = plain_input(
        1,
        vec![Field {
            shape: Shape::Reference(Box::new(Shape::Primitive)),
            attrs: vec![zc_attr(b"(guard = \"Default\")")],
        }],
    );
    let out = derive_dependant(input).unwrap();
    assert_eq!(out.checks[0].guard, CheckKind::Default);
}

#[test]
fn test_enum_checks_cover_every_variant() {
    let input = DeriveInput {
        name: b"MyEnum".to_vec(),
        lifetime_count: 1,
        attrs: Vec::new(),
        data: Data::Enum(vec![
            Variant {
                fields: vec![plain_field(Shape::Primitive)],
            },
            Variant {
                fields: vec![
                    plain_field(Shape::Optional(Box::new(Shape::Primitive))),
                    plain_field(Shape::Primitive),
                ],
            },
        ]),
    };
    let out = derive_dependant(input).unwrap();
    assert_eq!(out.checks.len(), 3);
    assert_eq!(
        out.checks[1].shape,
        Shape::Optional(Box::new(Shape::Primitive))
    );
}

#[test]
fn test_interior_mut_field_rejected() {
    // A reference kept inside an interior-mutable cell must not pass the
    // default capability check.
    let cell_of_ref = Shape::InteriorMutable(Box::new(Shape::Reference(Box::new(
        Shape::Primitive,
    ))));
    assert!(!no_interior_mut(&cell_of_ref));
    assert!(!is_dependant(&cell_of_ref));
    assert!(!check_passes(&FieldCheck {
        guard: CheckKind::Default,
        shape: cell_of_ref,
    }));

    let cell_of_ref = Shape::InteriorMutable(Box::new(Shape::Reference(Box::new(
        Shape::Primitive,
    ))));
    let input = plain_input(1, vec![plain_field(cell_of_ref)]);
    assert!(!generator_accepts(input));
}

#[test]
fn test_unsafe_override_accepted() {
    // An explicit (unsafely granted) implementation is taken at its word.
    let overridden = Shape::Declared {
        copy: false,
        interior_mut: true,
        dependant_impl: true,
    };
    assert!(!no_interior_mut(&overridden));
    assert!(is_dependant(&overridden));
    let input = plain_input(1, vec![plain_field(overridden)]);
    assert!(generator_accepts(input));
}

#[test]
fn test_capability_composition() {
    // The compound capabilities follow the components exactly.
    let pair = Shape::Tuple(vec![
        Shape::Primitive,
        Shape::Collection(Box::new(Shape::Primitive)),
    ]);
    assert!(no_interior_mut(&pair));
    assert!(is_dependant(&pair));
    assert!(!is_copy(&pair));

    let map_of_cells = Shape::Mapping(
        Box::new(Shape::Primitive),
        Box::new(Shape::InteriorMutable(Box::new(Shape::Primitive))),
    );
    assert!(!no_interior_mut(&map_of_cells));
    assert!(!is_dependant(&map_of_cells));

    let copy_tuple = Shape::Tuple(vec![
        Shape::Primitive,
        Shape::Reference(Box::new(Shape::Primitive)),
        Shape::Array(Box::new(Shape::Primitive)),
    ]);
    assert!(is_copy(&copy_tuple));

    let fallible = Shape::Fallible(
        Box::new(Shape::Primitive),
        Box::new(Shape::Collection(Box::new(Shape::Primitive))),
    );
    assert!(is_dependant(&fallible));
    assert!(!is_copy(&fallible));
}

#[test]
fn test_generator_accepts_plain_struct() {
    let input = plain_input(
        1,
        vec![
            plain_field(Shape::Reference(Box::new(Shape::Primitive))),
            plain_field(Shape::Collection(Box::new(Shape::Primitive))),
        ],
    );
    assert!(generator_accepts(input));
}

#[test]
fn test_generator_rejects_undeclared_type() {
    // A named type with no dependant implementation fails the default
    // check even though it has no interior mutability.
    let plain = Shape::Declared {
        copy: false,
        interior_mut: false,
        dependant_impl: false,
    };
    let input = plain_input(1, vec![plain_field(plain)]);
    assert!(!generator_accepts(input));
}
