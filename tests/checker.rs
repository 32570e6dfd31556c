use system_f_omega::checker::{check_type, infer_type, transl_kind, type_of};
use system_f_omega::context::{Context, ContextExpr, ContextType};
use system_f_omega::conversion::{alpha_conversion_expr, alpha_conversion_type, Names};
use system_f_omega::equivalence::{check_kind_equiv, check_type_equiv};
use system_f_omega::errors::TypeError;
use system_f_omega::grammar::from_string;
use system_f_omega::normalize::normalize;
use system_f_omega::parsetree::{Expr, Kind as SKind, KindVar, Star, TInt, TVar, Type as SType};
use system_f_omega::state::Parser;
use system_f_omega::substitution::substitution;
use system_f_omega::symbol::Symbol;
use system_f_omega::typedtree::{Annoted, Kind, Type};

fn renamed(src: &str) -> Expr {
    let expr = from_string(src).unwrap();
    let mut names = Names::new();
    alpha_conversion_expr(&mut names, &expr).unwrap()
}

fn type_of_source(src: &str) -> Result<Annoted, TypeError> {
    type_of(renamed(src))
}

fn sym(name: &str, id: usize) -> Symbol {
    Symbol { id, name: String::from(name) }
}

fn star_type(desc: Type) -> Annoted {
    Annoted { desc: Box::new(desc), kind: Kind::Star }
}

fn int_ty() -> Annoted {
    star_type(Type::Int)
}

fn var(name: &str, id: usize) -> Annoted {
    star_type(Type::Var { value: sym(name, id) })
}

fn arrow(left: Annoted, right: Annoted) -> Annoted {
    star_type(Type::Arrow { left, right })
}

fn forall_ty(name: &str, id: usize, body: Annoted) -> Annoted {
    star_type(Type::Forall { param: sym(name, id), param_ty: Kind::Star, body })
}

fn star_to_star() -> Kind {
    Kind::KindArrow { left: Box::new(Kind::Star), right: Box::new(Kind::Star) }
}

fn identity_operator(name: &str, id: usize) -> Annoted {
    Annoted {
        desc: Box::new(Type::TyAbs { param: sym(name, id), param_ty: Kind::Star, body: var(name, id) }),
        kind: star_to_star(),
    }
}

fn is_int(t: &Annoted) -> bool {
    matches!(*t.desc, Type::Int)
}

#[test]
fn polymorphic_identity_applied_to_int() {
    let t = type_of_source("let id: ∀A: *. A -> A = λA: *. λx: A. x in id [Int] 5").unwrap();
    assert!(is_int(&t));
}

#[test]
fn kind_mismatch_in_abstraction_is_rejected() {
    let r = type_of_source("(λA: * -> *. λx: A. x) [Int]");
    assert!(matches!(r, Err(TypeError::TypeClash)));
}

#[test]
fn kind_mismatch_in_type_application_is_rejected() {
    let r = type_of_source("let f: ∀F: * -> *. Int = λF: * -> *. 5 in f [Int]");
    assert!(matches!(r, Err(TypeError::TypeClash)));
}

#[test]
fn applying_a_number_is_not_an_arrow() {
    let r = type_of_source("(5) 6");
    match r {
        Err(TypeError::TypeNotAArrow(t)) => assert!(matches!(t, Type::Int)),
        other => panic!("unexpected result {:?}", other),
    }
}

#[test]
fn type_applying_a_number_is_not_a_forall() {
    let r = type_of_source("(5) [Int]");
    match r {
        Err(TypeError::TypeNotAForall(t)) => assert!(matches!(t, Type::Int)),
        other => panic!("unexpected result {:?}", other),
    }
}

#[test]
fn aliases_are_elaborated_at_each_reference() {
    let t = type_of_source(
        "type Id: * = ∀A:*.(A->A) in let f: Id = λA:*.λx:A.x in f [Int] 3",
    )
    .unwrap();
    assert!(is_int(&t));
}

#[test]
fn type_operator_is_reduced_at_application() {
    let t = type_of_source(
        "type F: * -> * = λB: *. B -> B in let g: ∀A: *. A -> A = λA: *. λx: A. x in g [F Int] (λy: Int. y)",
    )
    .unwrap();
    assert!(check_type_equiv(&t, &arrow(int_ty(), int_ty())).is_ok());
}

#[test]
fn kind_alias_is_expanded() {
    let t = type_of_source("kind K = * in λA: K. λx: A. x").unwrap();
    match *t.desc {
        Type::Forall { param_ty, .. } => assert!(matches!(param_ty, Kind::Star)),
        other => panic!("unexpected type {:?}", other),
    }
}

#[test]
fn argument_type_mismatch_is_rejected() {
    let r = type_of_source("let f: Int -> Int = λx: Int. x in f (λy: Int. y)");
    assert!(matches!(r, Err(TypeError::TypeClash)));
}

#[test]
fn unbound_variable_is_reported_by_renaming() {
    let expr = from_string("λx: Int. y").unwrap();
    let mut names = Names::new();
    match alpha_conversion_expr(&mut names, &expr) {
        Err(TypeError::UndefinedVariable(name)) => assert_eq!(name, "y"),
        other => panic!("unexpected result {:?}", other),
    }
}

#[test]
fn unbound_variable_is_reported_by_checking() {
    let expr = from_string("λx: Int. y").unwrap();
    match type_of(expr) {
        Err(TypeError::UndefinedVariable(name)) => assert_eq!(name, "y"),
        other => panic!("unexpected result {:?}", other),
    }
}

#[test]
fn cyclic_kind_alias_runs_out_of_fuel() {
    let expr = from_string("kind K = K in λA: K. 5").unwrap();
    assert!(matches!(type_of(expr), Err(TypeError::BudgetExceeded)));
}

#[test]
fn renaming_gives_fresh_identifiers_and_restores_scope() {
    let expr = from_string("λA: *. λx: A. x").unwrap();
    let mut names = Names::new();
    let out = alpha_conversion_expr(&mut names, &expr).unwrap();
    assert_eq!(names.count, 2);
    assert!(names.names.is_empty());
    match out {
        Expr::TAbs(tabs) => {
            assert_eq!(tabs.param, sym("A", 0));
            match *tabs.body {
                Expr::Abs(abs) => {
                    assert_eq!(abs.param, sym("x", 1));
                    assert_eq!(abs.param_ty, SType::TVar(TVar { value: sym("A", 0) }));
                    match *abs.body {
                        Expr::Var(v) => assert_eq!(v.value, sym("x", 1)),
                        other => panic!("unexpected body {:?}", other),
                    }
                },
                other => panic!("unexpected body {:?}", other),
            }
        },
        other => panic!("unexpected expression {:?}", other),
    }
}

#[test]
fn renaming_does_not_change_the_type() {
    let src = "λA: *. λx: A. x";
    let plain = type_of(from_string(src).unwrap()).unwrap();
    let after = type_of(renamed(src)).unwrap();
    assert!(check_type_equiv(&plain, &after).is_ok());
    assert!(check_type_equiv(&after, &plain).is_ok());
}

#[test]
fn renaming_a_type_binds_forall_parameters() {
    let mut parser = Parser::init("∀A: *. A -> A").unwrap();
    let ty = parser.parse_type().unwrap();
    let mut names = Names::new();
    names.count = 7;
    let out = alpha_conversion_type(&mut names, &ty).unwrap();
    assert_eq!(names.count, 8);
    match out {
        SType::Forall(f) => assert_eq!(f.param, sym("A", 7)),
        other => panic!("unexpected type {:?}", other),
    }
}

#[test]
fn normalize_reduces_a_redex() {
    let redex = Annoted {
        desc: Box::new(Type::TyApp { lambda: identity_operator("A", 3), argm: int_ty() }),
        kind: Kind::Star,
    };
    let n = normalize(redex, 10).unwrap();
    assert!(is_int(&n));
}

#[test]
fn normalize_twice_is_normalize_once() {
    let redex = Annoted {
        desc: Box::new(Type::TyApp { lambda: identity_operator("A", 3), argm: var("B", 4) }),
        kind: Kind::Star,
    };
    let t = arrow(redex, forall_ty("C", 5, var("C", 5)));
    let once = normalize(t, 10).unwrap();
    let twice = normalize(once.clone(), 10).unwrap();
    assert_eq!(once, twice);
    assert_eq!(once, arrow(var("B", 4), forall_ty("C", 5, var("C", 5))));
}

#[test]
fn normalize_without_fuel_fails_on_a_redex() {
    let redex = Annoted {
        desc: Box::new(Type::TyApp { lambda: identity_operator("A", 3), argm: int_ty() }),
        kind: Kind::Star,
    };
    assert!(matches!(normalize(redex, 0), Err(TypeError::BudgetExceeded)));
    assert!(is_int(&normalize(int_ty(), 0).unwrap()));
}

#[test]
fn stuck_application_is_kept() {
    let f = Annoted { desc: Box::new(Type::Var { value: sym("F", 1) }), kind: star_to_star() };
    let t = Annoted { desc: Box::new(Type::TyApp { lambda: f.clone(), argm: int_ty() }), kind: Kind::Star };
    assert_eq!(normalize(t.clone(), 3).unwrap(), t);
}

#[test]
fn normal_form_is_equivalent_to_elaboration() {
    let mut parser = Parser::init("∀A: *. (A -> Int) -> A").unwrap();
    let ty = parser.parse_type().unwrap();
    let mut names = Names::new();
    let ty = alpha_conversion_type(&mut names, &ty).unwrap();
    let context = Context::new();
    let a = check_type(&context, ty, Kind::Star, 100).unwrap();
    let n = normalize(a.clone(), 100).unwrap();
    assert!(check_type_equiv(&n, &a).is_ok());
}

#[test]
fn equivalence_renames_forall_binders() {
    let left = forall_ty("A", 1, arrow(var("A", 1), var("A", 1)));
    let right = forall_ty("B", 2, arrow(var("B", 2), var("B", 2)));
    assert!(check_type_equiv(&left, &right).is_ok());
}

#[test]
fn equivalence_reports_variable_clash() {
    assert!(matches!(check_type_equiv(&var("A", 1), &var("A", 2)), Err(TypeError::VariableClash)));
    let left = forall_ty("A", 1, var("A", 1));
    let right = forall_ty("B", 2, var("C", 3));
    assert!(matches!(check_type_equiv(&left, &right), Err(TypeError::VariableClash)));
}

#[test]
fn equivalence_reports_type_clash() {
    assert!(matches!(check_type_equiv(&int_ty(), &arrow(int_ty(), int_ty())), Err(TypeError::TypeClash)));
    let left = identity_operator("A", 1);
    assert!(matches!(check_type_equiv(&left, &left), Err(TypeError::TypeClash)));
}

#[test]
fn kind_equivalence_is_structural() {
    assert!(check_kind_equiv(&star_to_star(), &star_to_star()).is_ok());
    assert!(matches!(check_kind_equiv(&Kind::Star, &star_to_star()), Err(TypeError::TypeClash)));
}

#[test]
fn substitution_replaces_free_occurrences_only() {
    let t = arrow(var("A", 1), forall_ty("A", 1, var("A", 1)));
    let r = substitution(t, sym("A", 1), Type::Int);
    assert_eq!(r, arrow(int_ty(), forall_ty("A", 1, var("A", 1))));
}

#[test]
fn context_lookups_see_latest_binding() {
    let mut context = Context::new();
    assert!(matches!(context.get_expr(&sym("x", 0)), Err(TypeError::UndefinedVariable(_))));
    context.add_expr(&sym("x", 0), int_ty());
    context.add_expr(&sym("x", 0), var("A", 1));
    match context.get_expr(&sym("x", 0)).unwrap() {
        ContextExpr::Value(t) => assert_eq!(t, var("A", 1)),
        other => panic!("unexpected entry {:?}", other),
    }
    assert!(matches!(context.get_expr(&sym("x", 1)), Err(TypeError::UndefinedVariable(_))));
    context.add_type(&sym("A", 1), Kind::Star);
    assert!(matches!(context.get_type(&sym("A", 1)).unwrap(), ContextType::Value(Kind::Star)));
    context.add_type_alias(&sym("B", 2), SType::TInt(TInt {}));
    assert!(matches!(context.get_type(&sym("B", 2)).unwrap(), ContextType::Alias(SType::TInt(_))));
    context.add_kind_alias(&sym("K", 3), SKind::Star(Star {}));
    assert_eq!(context.get_kind(&sym("K", 3)).unwrap(), SKind::Star(Star {}));
    let alias = from_string("5").unwrap();
    context.add_expr_alias(&sym("y", 4), alias.clone());
    match context.get_expr(&sym("y", 4)).unwrap() {
        ContextExpr::Alias(e) => assert_eq!(e, alias),
        other => panic!("unexpected entry {:?}", other),
    }
}

#[test]
fn translation_of_kinds_follows_aliases() {
    let mut context = Context::new();
    context.add_kind_alias(&sym("K", 3), SKind::Star(Star {}));
    let k = SKind::KindVar(KindVar { value: sym("K", 3) });
    assert_eq!(transl_kind(&context, &k, 5).unwrap(), Kind::Star);
    assert!(matches!(transl_kind(&context, &k, 0), Err(TypeError::BudgetExceeded)));
    let unbound = SKind::KindVar(KindVar { value: sym("J", 9) });
    assert!(matches!(transl_kind(&context, &unbound, 5), Err(TypeError::UndefinedVariable(_))));
}

#[test]
fn applying_a_proper_type_is_a_type_clash() {
    let mut parser = Parser::init("Int Int").unwrap();
    let ty = parser.parse_type().unwrap();
    let context = Context::new();
    assert!(matches!(infer_type(&context, ty, 10), Err(TypeError::TypeClash)));
}

#[test]
fn type_operator_has_arrow_kind() {
    let mut parser = Parser::init("λA: *. A -> A").unwrap();
    let ty = parser.parse_type().unwrap();
    let mut names = Names::new();
    let ty = alpha_conversion_type(&mut names, &ty).unwrap();
    let context = Context::new();
    let t = infer_type(&context, ty, 10).unwrap();
    assert_eq!(t.kind, star_to_star());
}
