use stacklang::ir::{find_decl, program_has_main};
use stacklang::{EIrInstr, EType};

fn proc_named(name: &str) -> EIrInstr {
    EIrInstr::Proc(name.to_string(), vec![EIrInstr::Ret], Vec::new(), EType::Void)
}

fn const_named(name: &str) -> EIrInstr {
    EIrInstr::Const(name.to_string(), vec![EIrInstr::Ret])
}

#[test]
fn the_last_declaration_of_a_name_is_found() {
    let ir = vec![
        proc_named("a"),
        const_named("b"),
        EIrInstr::Call("c".to_string()),
        proc_named("a"),
        const_named("a"),
        proc_named("b"),
    ];
    assert_eq!(find_decl(&ir, &"a".to_string()), Some(4));
    assert_eq!(find_decl(&ir, &"b".to_string()), Some(5));
    assert_eq!(find_decl(&ir, &"c".to_string()), None);
    assert_eq!(find_decl(&ir, &String::new()), None);
    assert_eq!(find_decl(&[], &"a".to_string()), None);
}

#[test]
fn only_a_procedure_counts_as_main() {
    assert!(program_has_main(&[proc_named("main")]));
    assert!(program_has_main(&[const_named("x"), proc_named("main"), proc_named("f")]));
    assert!(!program_has_main(&[]));
    assert!(!program_has_main(&[const_named("main")]));
    assert!(!program_has_main(&[proc_named("Main"), proc_named("main2")]));
    assert!(!program_has_main(&[EIrInstr::Call("main".to_string())]));
}

#[test]
fn types_compare_by_variant() {
    assert_eq!(EType::I64, EType::I64);
    assert_ne!(EType::I64, EType::U64);
    assert_ne!(EType::Void, EType::Bool);
}
