use udf::args::{ArgList, Init, Process, SqlArg};
use udf::cfg::UdfCfg;
use udf::generate::{
    UuidGenerateV1, UuidGenerateV1mc, UuidGenerateV4, UuidGenerateV6, UuidGenerateV7,
};
use udf::namespaces::{UuidMax, UuidNil, UuidNsDns, UuidNsOid, UuidNsUrl, UuidNsX500};
use udf::sql::SqlResult;
use udf::udf::BasicUdf;
use udf::valid::UuidIsValid;
use uuid::Uuid;

/// Runs a function once, with no arguments, as a `select f()` would.
fn select<U>() -> String
where
    U: BasicUdf,
    for<'a> U::Returns<'a>: AsRef<[u8]>,
{
    select_with::<U>(vec![])
}

fn select_with<U>(args: Vec<SqlArg>) -> String
where
    U: BasicUdf,
    for<'a> U::Returns<'a>: AsRef<[u8]>,
{
    let mut cfg = UdfCfg::<Init>::new();
    let mut init_args = ArgList::<Init>::new(args.clone());
    let mut f = U::init(&mut cfg, &mut init_args).unwrap();
    let process_args = ArgList::<Process>::new(args);
    let res = f.process(&UdfCfg::new(), &process_args, None).unwrap();
    String::from_utf8(res.as_ref().to_vec()).unwrap()
}

#[test]
fn test_nil() {
    let res = select::<UuidNil>();

    assert_eq!(res, "00000000-0000-0000-0000-000000000000");
    assert_eq!(res, Uuid::nil().hyphenated().to_string());
}

#[test]
fn test_max() {
    let res = select::<UuidMax>();

    assert_eq!(res, "ffffffff-ffff-ffff-ffff-ffffffffffff");
    assert_eq!(res, Uuid::max().hyphenated().to_string());
}

#[test]
fn test_ns_dns() {
    let res = select::<UuidNsDns>();

    assert_eq!(res, "6ba7b810-9dad-11d1-80b4-00c04fd430c8");
    assert_eq!(res, Uuid::NAMESPACE_DNS.hyphenated().to_string());
}

#[test]
fn test_ns_url() {
    let res = select::<UuidNsUrl>();

    assert_eq!(res, "6ba7b811-9dad-11d1-80b4-00c04fd430c8");
    assert_eq!(res, Uuid::NAMESPACE_URL.hyphenated().to_string());
}

#[test]
fn test_ns_oid() {
    let res = select::<UuidNsOid>();

    assert_eq!(res, "6ba7b812-9dad-11d1-80b4-00c04fd430c8");
    assert_eq!(res, Uuid::NAMESPACE_OID.hyphenated().to_string());
}

#[test]
fn test_ns_x500() {
    let res = select::<UuidNsX500>();

    assert_eq!(res, "6ba7b814-9dad-11d1-80b4-00c04fd430c8");
    assert_eq!(res, Uuid::NAMESPACE_X500.hyphenated().to_string());
}

#[test]
fn test_generate_v1() {
    let res = select::<UuidGenerateV1>();

    let uuid = Uuid::try_parse(&res).unwrap();

    assert_eq!(uuid.get_version_num(), 1);
}

#[test]
fn test_generate_v1mc() {
    let res = select::<UuidGenerateV1mc>();

    let uuid = Uuid::try_parse(&res).unwrap();

    assert_eq!(uuid.get_version_num(), 1);
}

#[test]
fn test_generate_v4() {
    let res = select::<UuidGenerateV4>();

    let uuid = Uuid::try_parse(&res).unwrap();

    assert_eq!(uuid.get_version_num(), 4);
}

#[test]
fn test_generate_v6() {
    let res = select::<UuidGenerateV6>();

    let uuid = Uuid::try_parse(&res).unwrap();

    assert_eq!(uuid.get_version_num(), 6);

    let node_id = "abcdef";
    let res = select_with::<UuidGenerateV6>(vec![SqlArg::new(
        SqlResult::String(Some(node_id.as_bytes().to_vec())),
        "node_id",
        false,
    )]);

    let uuid = Uuid::try_parse(res.as_str()).unwrap();

    assert_eq!(uuid.get_version_num(), 6);
    assert!(uuid.as_bytes().ends_with(node_id.as_bytes()));
}

#[test]
fn test_generate_v7() {
    let res = select::<UuidGenerateV7>();

    let uuid = Uuid::try_parse(&res).unwrap();

    assert_eq!(uuid.get_version_num(), 7);
}

#[test]
fn test_valid() {
    let generated = select::<UuidGenerateV4>();

    let mut cfg = UdfCfg::<Init>::new();
    let arg = SqlArg::new(SqlResult::String(Some(generated.into_bytes())), "", false);
    let mut init_args = ArgList::<Init>::new(vec![arg.clone()]);
    let mut valid = UuidIsValid::init(&mut cfg, &mut init_args).unwrap();
    let res = valid
        .process(&UdfCfg::new(), &ArgList::<Process>::new(vec![arg]), None)
        .unwrap();

    assert_eq!(res, 1);
}
