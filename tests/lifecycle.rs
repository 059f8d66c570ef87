use udf::args::{ArgList, Init, Process, SqlArg};
use udf::cfg::UdfCfg;
use udf::convert::UuidToBin;
use udf::generate::{UuidGenerateV1, UuidGenerateV1mc, UuidGenerateV6};
use udf::namespaces::{UuidNil, UuidNsDns};
use udf::sql::{ProcessError, SqlResult, SqlType};
use udf::statement::Statement;
use udf::udf::BasicUdf;
use udf::uuid_text::strip_hyphens;
use udf::valid::UuidIsValid;
use udf::validate_arg_count;
use uuid::Uuid;

fn text(s: &str) -> SqlArg {
    SqlArg::new(SqlResult::String(Some(s.as_bytes().to_vec())), "", true)
}

fn int_arg(v: i64) -> SqlArg {
    SqlArg::new(SqlResult::Int(Some(v)), "", true)
}

#[test]
fn arity_messages() {
    assert_eq!(validate_arg_count(2, 2, "f"), Ok(()));
    assert_eq!(
        validate_arg_count(3, 2, "f"),
        Err("f takes 2 arguments but got 3".to_string())
    );
    assert_eq!(
        validate_arg_count(0, 1, "g"),
        Err("g takes 1 argument but got 0".to_string())
    );
    assert_eq!(
        validate_arg_count(1234567, 0, "h"),
        Err("h takes 0 arguments but got 1234567".to_string())
    );
}

#[test]
fn fixed_arity_functions_refuse_other_counts() {
    let mut cfg = UdfCfg::<Init>::new();
    let mut one = ArgList::<Init>::new(vec![int_arg(1)]);
    let err = UuidNsDns::init(&mut cfg, &mut one).unwrap_err();
    assert_eq!(err, "uuid_ns_dns takes 0 arguments but got 1");
    assert!(!cfg.is_const());

    let mut one = ArgList::<Init>::new(vec![int_arg(1)]);
    let err = UuidGenerateV1::init(&mut cfg, &mut one).unwrap_err();
    assert_eq!(err, "uuid_generate_v1 takes 0 arguments but got 1");
    assert_eq!(cfg.max_len(), 0);

    let mut none = ArgList::<Init>::new(vec![]);
    UuidNsDns::init(&mut cfg, &mut none).unwrap();
    assert!(cfg.is_const());
    UuidGenerateV1mc::init(&mut cfg, &mut none).unwrap();
    assert_eq!(cfg.max_len(), 36);
}

#[test]
fn constant_rows_are_identical() {
    let mut nil = UuidNil;
    let args = ArgList::<Process>::new(vec![]);
    let first = nil.process(&UdfCfg::new(), &args, None).unwrap();
    let second = nil.process(&UdfCfg::new(), &args, None).unwrap();
    assert_eq!(first.as_bytes(), second.as_bytes());
}

#[test]
fn nil_statement_end_to_end() {
    let mut stmt = Statement::<UuidNil>::initialize(UdfCfg::new(), ArgList::new(vec![])).unwrap();
    assert!(stmt.cfg().is_const());
    for _ in 0..3 {
        assert_eq!(
            stmt.process_row(vec![]),
            Ok("00000000-0000-0000-0000-000000000000")
        );
    }
    stmt.teardown();

    let refused = Statement::<UuidNil>::initialize(UdfCfg::new(), ArgList::new(vec![int_arg(1)]));
    assert_eq!(refused.err(), Some("uuid_nil takes 0 arguments but got 1".to_string()));

    let untouched = Statement::<UuidNil>::initialize(UdfCfg::new(), ArgList::new(vec![])).unwrap();
    untouched.teardown();
}

#[test]
fn statement_keeps_row_shape() {
    let mut stmt =
        Statement::<UuidIsValid>::initialize(UdfCfg::new(), ArgList::new(vec![int_arg(5)])).unwrap();
    // the argument is now presented as text
    assert_eq!(stmt.process_row(vec![SqlResult::Int(Some(5))]), Err(ProcessError));
    assert_eq!(stmt.process_row(vec![]), Err(ProcessError));
    assert_eq!(
        stmt.process_row(vec![SqlResult::String(Some(
            b"00908d94c78d4ea58aa55a06868f0420".to_vec()
        ))]),
        Ok(1)
    );
    assert_eq!(stmt.process_row(vec![SqlResult::String(None)]), Ok(0));
    stmt.teardown();
}

#[test]
fn coercion_is_idempotent() {
    let mut args = ArgList::<Init>::new(vec![int_arg(1), int_arg(2)]);
    args.set_type_coercion(1, SqlType::String);
    args.set_type_coercion(1, SqlType::String);
    assert_eq!(args.get(1).unwrap().arg_type, SqlType::String);
    assert_eq!(args.get(0).unwrap().arg_type, SqlType::Int);
    assert_eq!(args.get(1).unwrap().value(), &SqlResult::Int(Some(2)));
    assert!(args.get(2).is_none());
    assert_eq!(args.len(), 2);
}

#[test]
fn process_list_refuses_misfit_rows() {
    let mut args = ArgList::<Process>::new(vec![int_arg(1), text("a")]);
    assert!(!args.set_row(vec![SqlResult::Int(Some(3))]));
    assert!(!args.set_row(vec![SqlResult::String(None), SqlResult::String(None)]));
    assert_eq!(args.get(0).unwrap().value(), &SqlResult::Int(Some(1)));
    assert!(args.set_row(vec![SqlResult::Int(None), SqlResult::String(Some(b"b".to_vec()))]));
    assert_eq!(args.get(0).unwrap().value(), &SqlResult::Int(None));
    assert_eq!(
        args.get(1).unwrap().value(),
        &SqlResult::String(Some(b"b".to_vec()))
    );
}

#[test]
fn to_bin_honors_swap_coercion() {
    let mut cfg = UdfCfg::<Init>::new();
    let mut init_args = ArgList::<Init>::new(vec![
        text("6ba7b810-9dad-11d1-80b4-00c04fd430c8"),
        SqlArg::new(SqlResult::String(Some(b"1".to_vec())), "swap", false),
    ]);
    let mut stmt_args = init_args.get(0).unwrap().clone();
    let mut f = UuidToBin::init(&mut cfg, &mut init_args).unwrap();
    assert_eq!(init_args.get(0).unwrap().arg_type, SqlType::String);
    assert_eq!(init_args.get(1).unwrap().arg_type, SqlType::Int);
    assert_eq!(cfg.max_len(), 16);

    // the engine presents the text "1" as the integer 1 in every row
    let mut process_args = init_args.into_process();
    stmt_args.value = SqlResult::String(Some(b"6ba7b810-9dad-11d1-80b4-00c04fd430c8".to_vec()));
    assert!(process_args.set_row(vec![stmt_args.value.clone(), SqlResult::Int(Some(1))]));
    let swapped = f.process(&UdfCfg::new(), &process_args, None).unwrap().to_vec();
    assert_eq!(
        swapped,
        vec![
            0x11, 0xd1, 0x9d, 0xad, 0x6b, 0xa7, 0xb8, 0x10, 0x80, 0xb4, 0x00, 0xc0, 0x4f, 0xd4,
            0x30, 0xc8
        ]
    );

    assert!(process_args.set_row(vec![stmt_args.value.clone(), SqlResult::Int(Some(0))]));
    let plain = f.process(&UdfCfg::new(), &process_args, None).unwrap().to_vec();
    assert_eq!(plain, Uuid::NAMESPACE_DNS.as_bytes().to_vec());
}

#[test]
fn to_bin_refuses_constant_out_of_range() {
    let mut cfg = UdfCfg::<Init>::new();
    let mut args = ArgList::<Init>::new(vec![text("x"), int_arg(2)]);
    assert_eq!(
        UuidToBin::init(&mut cfg, &mut args),
        Err("uuid_to_bin's second argument must be 0 or 1; got 2".to_string())
    );
    let mut args = ArgList::<Init>::new(vec![text("x"), int_arg(i64::MIN)]);
    assert_eq!(
        UuidToBin::init(&mut cfg, &mut args),
        Err("uuid_to_bin's second argument must be 0 or 1; got -9223372036854775808".to_string())
    );
    let mut args = ArgList::<Init>::new(vec![text("x"), int_arg(1)]);
    assert!(UuidToBin::init(&mut cfg, &mut args).is_ok());
}

#[test]
fn to_bin_arity_and_row_errors() {
    let mut cfg = UdfCfg::<Init>::new();
    let mut args = ArgList::<Init>::new(vec![]);
    assert_eq!(
        UuidToBin::init(&mut cfg, &mut args),
        Err("uuid_to_bin takes 1 or 2 arguments but got 0 (usage: `uuid_to_bin(str_uuid)` or `uuid_to_bin(str_uuid, swap)`)".to_string())
    );
    let mut args = ArgList::<Init>::new(vec![text("a"), int_arg(0), int_arg(0)]);
    assert!(UuidToBin::init(&mut cfg, &mut args).is_err());

    let mut f = UuidToBin([0; 16]);
    let bad = ArgList::<Process>::new(vec![text("not a uuid")]);
    assert_eq!(f.process(&UdfCfg::new(), &bad, None), Err(ProcessError));
    let null = ArgList::<Process>::new(vec![SqlArg::new(SqlResult::String(None), "", true)]);
    assert_eq!(f.process(&UdfCfg::new(), &null, None), Err(ProcessError));
    let urn = ArgList::<Process>::new(vec![text("URN:uuid:6ba7b811-9dad-11d1-80b4-00c04fd430c8")]);
    assert_eq!(
        f.process(&UdfCfg::new(), &urn, None).unwrap().to_vec(),
        Uuid::NAMESPACE_URL.as_bytes().to_vec()
    );
}

#[test]
fn v6_arguments() {
    let mut cfg = UdfCfg::<Init>::new();
    let mut args = ArgList::<Init>::new(vec![int_arg(1), int_arg(2)]);
    assert_eq!(
        UuidGenerateV6::init(&mut cfg, &mut args).unwrap_err(),
        "uuid_generate_v6 takes 0 or 1 arguments but got 2 (usage: `uuid_generate_v6()` or `uuid_generate_v6(node_id)`)"
    );
    let mut args = ArgList::<Init>::new(vec![int_arg(1)]);
    let mut f = UuidGenerateV6::init(&mut cfg, &mut args).unwrap();
    assert_eq!(args.get(0).unwrap().arg_type, SqlType::String);

    let short = ArgList::<Process>::new(vec![text("abcde")]);
    assert_eq!(f.process(&UdfCfg::new(), &short, None), Err(ProcessError));
    let null = ArgList::<Process>::new(vec![SqlArg::new(SqlResult::String(None), "", true)]);
    assert_eq!(f.process(&UdfCfg::new(), &null, None), Err(ProcessError));
}

#[test]
fn generated_text_shape() {
    let mut f = UuidGenerateV1mc([0; 36]);
    let args = ArgList::<Process>::new(vec![]);
    let res = f.process(&UdfCfg::new(), &args, None).unwrap().to_vec();
    let text = String::from_utf8(res.clone()).unwrap();
    assert_eq!(text.len(), 36);
    assert!(text
        .bytes()
        .enumerate()
        .all(|(i, c)| if [8, 13, 18, 23].contains(&i) { c == b'-' } else { c.is_ascii_hexdigit() && !c.is_ascii_uppercase() }));
    let uuid = Uuid::try_parse(&text).unwrap();
    assert_eq!(&uuid.as_bytes()[10..13], &[0x01, 0x00, 0x5e]);
    assert_eq!(strip_hyphens(&res).len(), 32);

    let mut v1 = UuidGenerateV1 { mac: [1, 2, 3, 4, 5, 6], res: [0; 36] };
    let t = v1.process(&UdfCfg::new(), &args, None).unwrap().to_vec();
    let uuid = Uuid::try_parse_ascii(&t).unwrap();
    assert_eq!(&uuid.as_bytes()[10..16], &[1, 2, 3, 4, 5, 6]);
}

#[test]
fn corrupted_generated_text_fails() {
    let mut f = UuidGenerateV1mc([0; 36]);
    let none = ArgList::<Process>::new(vec![]);
    let good = f.process(&UdfCfg::new(), &none, None).unwrap().to_vec();
    let mut valid = UuidIsValid;
    let check = |bytes: Vec<u8>, v: &mut UuidIsValid| {
        let args = ArgList::<Process>::new(vec![SqlArg::new(SqlResult::String(Some(bytes)), "", true)]);
        v.process(&UdfCfg::new(), &args, None).unwrap()
    };
    assert_eq!(check(good.clone(), &mut valid), 1);
    assert_eq!(check(good[..35].to_vec(), &mut valid), 0);
    let mut wrong = good.clone();
    wrong[0] = b'z';
    assert_eq!(check(wrong, &mut valid), 0);
}

#[test]
fn strip_hyphens_keeps_other_bytes() {
    assert_eq!(strip_hyphens(b"-a-b--c-"), b"abc".to_vec());
    assert_eq!(strip_hyphens(b""), Vec::<u8>::new());
}

#[test]
fn to_bin_reads_back_generated_text() {
    let mut gen = udf::generate::UuidGenerateV4([0; 36]);
    let none = ArgList::<Process>::new(vec![]);
    let text_bytes = gen.process(&UdfCfg::new(), &none, None).unwrap().to_vec();
    let expected = Uuid::try_parse_ascii(&text_bytes).unwrap().as_bytes().to_vec();
    let mut f = UuidToBin([0; 16]);
    let args = ArgList::<Process>::new(vec![SqlArg::new(
        SqlResult::String(Some(text_bytes)),
        "",
        false,
    )]);
    assert_eq!(f.process(&UdfCfg::new(), &args, None).unwrap().to_vec(), expected);
}
