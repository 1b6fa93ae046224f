use typechecker::attributes::check_attribute;
use typechecker::parser::InstructionListParser;
use typechecker::parsers::parse_contract;
use typechecker::parsers::parse_stack as parse_stack_result;
use typechecker::typechecker::typecheck;
use typechecker::typechecker::typecheck_contract;
use typechecker::typechecker::typecheck_value;
use typechecker::types::Attribute;
use typechecker::types::MAtomic::MInt;
use typechecker::types::MAtomic::MNat;
use typechecker::types::MAtomic::MUnit;
use typechecker::types::MType::MBigMap;
use typechecker::types::MType::MContract;
use typechecker::types::MType::MLambda;
use typechecker::types::MType::MList;
use typechecker::types::MType::MMap;
use typechecker::types::MType::MOption;
use typechecker::types::MType::MOr;
use typechecker::types::MType::MPair;
use typechecker::types::MType::MSet;
use typechecker::types::MType::MTicket;
use typechecker::types::MType::MWrapped;
use typechecker::types::SomeValue;
use typechecker::types::StackState;
use typechecker::types::TcEnv;

fn tc(src: &str) -> Result<StackState<typechecker::types::MAtomic>, String> {
    let p = InstructionListParser::new();
    let instructions = p.parse(src).expect("the program should parse");
    let mut stack = StackState::new();
    let tcenv: TcEnv = TcEnv {
        self_type: MWrapped(MUnit),
    };
    typecheck(&tcenv, &instructions, &mut stack)?;
    Result::Ok(stack)
}

fn stack(src: &str) -> StackState<typechecker::types::MAtomic> {
    parse_stack_result(src).expect("the stack should parse")
}

// The end-to-end scenarios.
#[test]
fn scenario_push_nat() {
    assert_eq!(tc("PUSH nat 5").unwrap(), stack("nat"));
}

#[test]
fn scenario_push_value_mismatch() {
    assert!(tc("PUSH nat \"asd\"").is_err());
}

#[test]
fn scenario_add_nats() {
    assert_eq!(tc("PUSH nat 5; PUSH nat 5; ADD").unwrap(), stack("nat"));
}

#[test]
fn scenario_stack_underflow() {
    assert!(tc("PUSH (pair nat nat) (Pair 2 3); DROP; DROP").is_err());
}

#[test]
fn scenario_lambda_exec() {
    assert_eq!(
        tc("LAMBDA nat (pair nat nat) {DUP; PAIR}; PUSH nat 5; EXEC").unwrap(),
        stack("pair nat nat")
    );
}

#[test]
fn scenario_branch_disagreement() {
    assert!(tc("PUSH bool True; IF {PUSH nat 5} {PUSH int 10}").is_err());
}

#[test]
fn scenario_iter_drop() {
    assert_eq!(tc("PUSH (list nat) {5;6}; ITER {DROP}").unwrap(), stack(""));
}

#[test]
fn scenario_if_expects_bool() {
    assert!(tc("PUSH nat 1; IF {} {}").is_err());
}

// Boundary cases.
#[test]
fn empty_list_literal() {
    assert_eq!(tc("PUSH (list nat) {}").unwrap(), stack("list nat"));
}

#[test]
fn empty_map_literal() {
    assert_eq!(tc("PUSH (map nat nat) {}").unwrap(), stack("map nat nat"));
}

#[test]
fn option_none_literal() {
    assert_eq!(tc("PUSH (option nat) None").unwrap(), stack("option nat"));
}

#[test]
fn failwith_in_one_branch_keeps_the_other() {
    assert_eq!(
        tc("PUSH bool True; IF {FAILWITH} {PUSH mutez 3}").unwrap(),
        stack("mutez")
    );
    assert_eq!(
        tc("PUSH bool True; IF {PUSH mutez 3} {FAIL}").unwrap(),
        stack("mutez")
    );
}

#[test]
fn failwith_in_both_branches_leaves_a_failed_stack() {
    // A failed stack then absorbs everything, even an ADD of nothing.
    assert_eq!(
        tc("PUSH bool True; IF {FAIL} {FAILWITH}; ADD").unwrap(),
        StackState::FailedStack
    );
}

#[test]
fn dip_zero_is_forbidden() {
    assert!(tc("PUSH nat 5; DIP 0 {PUSH nat 1}").is_err());
}

#[test]
fn pair_one_is_forbidden() {
    assert!(tc("PUSH nat 5; PAIR 1").is_err());
    assert!(tc("PUSH nat 5; PUSH nat 6; UNPAIR 1").is_err());
}

#[test]
fn dup_zero_is_forbidden() {
    assert!(tc("PUSH nat 5; DUP 0").is_err());
}

#[test]
fn get_zero_is_identity() {
    assert_eq!(
        tc("PUSH (pair nat int) (Pair 1 2); GET 0").unwrap(),
        stack("pair nat int")
    );
}

#[test]
fn deep_pair_of_five() {
    assert_eq!(
        tc("PUSH string \"s\"; PUSH mutez 4; PUSH bool True; PUSH int 2; PUSH nat 1; PAIR 5")
            .unwrap(),
        stack("pair nat (pair int (pair bool (pair mutez string)))")
    );
    assert_eq!(
        tc("PUSH (pair nat (pair int (pair bool (pair mutez string)))) \
            (Pair 1 (Pair 2 (Pair True (Pair 3 \"s\")))); UNPAIR 5")
            .unwrap(),
        stack("nat; int; bool; mutez; string")
    );
}

#[test]
fn update_n_replaces_the_addressed_slice() {
    assert_eq!(
        tc("PUSH (pair nat (pair int bool)) (Pair 1 (Pair 2 True)); PUSH string \"x\"; UPDATE 3")
            .unwrap(),
        stack("pair nat (pair string bool)")
    );
}

#[test]
fn lambda_rec_body_references_itself() {
    assert_eq!(
        tc("LAMBDA_REC nat nat { DUP 2; SWAP; EXEC; DIP { DROP } }").unwrap(),
        stack("lambda nat nat")
    );
}

#[test]
fn mutez_rejects_negative_numbers() {
    assert!(tc("PUSH mutez -1").is_err());
    assert!(tc("PUSH nat -5").is_err());
    assert_eq!(tc("PUSH int -5").unwrap(), stack("int"));
}

#[test]
fn unknown_instruction_is_reported() {
    assert!(tc("FROBNICATE").is_err());
}

#[test]
fn no_schema_variant_matches() {
    assert!(tc("PUSH bool True; PUSH bool True; ADD").is_err());
}

#[test]
fn comparable_attribute_is_demanded_for_compare() {
    assert_eq!(
        tc("PUSH nat 1; PUSH nat 2; COMPARE").unwrap(),
        stack("int")
    );
    assert!(tc("NIL operation; NIL operation; COMPARE").is_err());
}

// Determinism: the same program gives the same verdict and stack each time.
#[test]
fn typecheck_is_deterministic() {
    let a = tc("PUSH nat 5; PUSH nat 5; ADD");
    let b = tc("PUSH nat 5; PUSH nat 5; ADD");
    assert_eq!(a.unwrap(), b.unwrap());
    assert!(tc("PUSH nat 5; ADD").is_err());
    assert!(tc("PUSH nat 5; ADD").is_err());
}

// Reconciliation commutativity on concrete programs.
#[test]
fn swapping_equal_branches_preserves_the_verdict() {
    let a = tc("PUSH bool True; IF {PUSH int 1} {FAIL}");
    let b = tc("PUSH bool True; IF {FAIL} {PUSH int 1}");
    assert_eq!(a.unwrap(), b.unwrap());
    assert!(tc("PUSH bool True; IF {PUSH int 1} {PUSH nat 1}").is_err());
    assert!(tc("PUSH bool True; IF {PUSH nat 1} {PUSH int 1}").is_err());
}

#[test]
fn if_none_and_if_some_swap_branches() {
    let a = tc("PUSH (option nat) (Some 1); IF_NONE {PUSH int 5} {DROP; PUSH int 1}");
    let b = tc("PUSH (option nat) (Some 1); IF_SOME {DROP; PUSH int 1} {PUSH int 5}");
    assert_eq!(a.unwrap(), b.unwrap());
}

// Schema monotonicity on a concrete program: extra elements below the
// schema's inputs do not disturb it and carry over unchanged.
#[test]
fn schema_succeeds_with_extra_stack_below() {
    assert_eq!(tc("PUSH nat 1; PUSH int 2; SWAP").unwrap(), stack("nat; int"));
    assert_eq!(
        tc("PUSH mutez 3; PUSH nat 1; PUSH int 2; SWAP").unwrap(),
        stack("nat; int; mutez")
    );
}

// Round trip on value literals: the inferred ground type is the target.
#[test]
fn check_value_returns_the_target_type() {
    let tcenv = TcEnv {
        self_type: MWrapped(MUnit),
    };
    let resolved = Vec::new();
    let target = MWrapped(MNat);
    let (_, inferred) = typecheck_value(
        &tcenv,
        &resolved,
        &SomeValue::Atomic(typechecker::types::AtomicValue::AVNumber(5)),
        &target,
    )
    .unwrap();
    assert_eq!(inferred, target);
    let target2 = MList(Box::new(MWrapped(MInt)));
    let (_, inferred2) = typecheck_value(
        &tcenv,
        &resolved,
        &SomeValue::Composite(Box::new(typechecker::types::CompositeValue::CVSeq(
            typechecker::types::SeqItem::SqValue(vec![]),
        ))),
        &target2,
    )
    .unwrap();
    assert_eq!(inferred2, target2);
}

// The attribute table, row by row.
#[test]
fn attribute_table_rows() {
    let nat = || MWrapped(MNat);
    let cmp = Attribute::Comparable;
    let pas = Attribute::Passable;
    let psh = Attribute::Pushable;
    let sto = Attribute::Storable;
    let pck = Attribute::Packable;
    let bml = Attribute::BigmapValue;
    let dup = Attribute::Duplicable;

    // Atomic types satisfy everything.
    for a in [cmp, pas, psh, sto, pck, bml, dup] {
        assert!(check_attribute(&a, &nat()));
    }
    // pair and or ask both components.
    let pair = MPair(Box::new((nat(), nat())));
    let orv = MOr(Box::new((nat(), MList(Box::new(nat())))));
    for a in [cmp, pas, psh, sto, pck, bml, dup] {
        assert!(check_attribute(&a, &pair));
    }
    assert!(!check_attribute(&cmp, &orv));
    // option asks its payload.
    assert!(check_attribute(&cmp, &MOption(Box::new(nat()))));
    // list and set are never comparable, otherwise ask the element.
    assert!(!check_attribute(&cmp, &MList(Box::new(nat()))));
    assert!(check_attribute(&psh, &MList(Box::new(nat()))));
    assert!(!check_attribute(&cmp, &MSet(Box::new(nat()))));
    assert!(check_attribute(&sto, &MSet(Box::new(nat()))));
    // map asks its value type and is never comparable.
    let map = MMap(Box::new((nat(), nat())));
    assert!(!check_attribute(&cmp, &map));
    assert!(check_attribute(&pas, &map));
    // big_map only passes, stores and duplicates.
    let bm = MBigMap(Box::new((nat(), nat())));
    assert!(check_attribute(&pas, &bm));
    assert!(check_attribute(&sto, &bm));
    assert!(check_attribute(&dup, &bm));
    assert!(!check_attribute(&cmp, &bm));
    assert!(!check_attribute(&psh, &bm));
    assert!(!check_attribute(&pck, &bm));
    assert!(!check_attribute(&bml, &bm));
    // contract only passes, packs and duplicates.
    let con = MContract(Box::new(nat()));
    assert!(check_attribute(&pas, &con));
    assert!(check_attribute(&pck, &con));
    assert!(check_attribute(&dup, &con));
    assert!(!check_attribute(&cmp, &con));
    assert!(!check_attribute(&sto, &con));
    assert!(!check_attribute(&psh, &con));
    assert!(!check_attribute(&bml, &con));
    // ticket only stores, packs and is a legal big-map value.
    let tik = MTicket(Box::new(nat()));
    assert!(check_attribute(&sto, &tik));
    assert!(check_attribute(&pck, &tik));
    assert!(check_attribute(&bml, &tik));
    assert!(!check_attribute(&cmp, &tik));
    assert!(!check_attribute(&pas, &tik));
    assert!(!check_attribute(&psh, &tik));
    assert!(!check_attribute(&dup, &tik));
    // lambda satisfies everything but comparability.
    let lam = MLambda(Box::new((nat(), nat())));
    assert!(!check_attribute(&cmp, &lam));
    for a in [pas, psh, sto, pck, bml, dup] {
        assert!(check_attribute(&a, &lam));
    }
}

#[test]
fn whole_contract_checks() {
    let src = "parameter nat; # the declared parameter\n\
               storage nat;\n\
               code { CDR ; NIL operation ; PAIR };";
    let c = parse_contract(src).expect("the contract should parse");
    let typed = typecheck_contract(c).expect("the contract should type-check");
    assert_eq!(typed.parameter, MWrapped(MNat));
    assert_eq!(typed.storage, MWrapped(MNat));
}

#[test]
fn whole_contract_with_bad_terminal_stack_fails() {
    let src = "parameter nat; storage nat; code { CDR };";
    let c = parse_contract(src).expect("the contract should parse");
    assert!(typecheck_contract(c).is_err());
}

#[test]
fn loop_restores_the_tail_with_bool_on_top() {
    assert_eq!(
        tc("PUSH nat 1; PUSH bool True; LOOP { PUSH nat 1; ADD; PUSH bool False }").unwrap(),
        stack("nat")
    );
    assert!(tc("PUSH nat 1; PUSH bool True; LOOP { PUSH nat 1; ADD }").is_err());
}

#[test]
fn sub_mutez_gives_an_option() {
    assert_eq!(
        tc("PUSH mutez 2; PUSH mutez 1; SUB").unwrap(),
        stack("option mutez")
    );
}

#[test]
fn ediv_gives_option_pairs() {
    assert_eq!(
        tc("PUSH nat 2; PUSH nat 7; EDIV").unwrap(),
        stack("option (pair nat nat)")
    );
    assert_eq!(
        tc("PUSH mutez 2; PUSH mutez 7; EDIV").unwrap(),
        stack("option (pair nat mutez)")
    );
}

#[test]
fn dig_and_dug_move_elements() {
    assert_eq!(
        tc("PUSH int 1; PUSH nat 1; PUSH mutez 0; DUG 2").unwrap(),
        stack("nat; int; mutez")
    );
    assert!(tc("PUSH nat 1; DIG 5").is_err());
}
