//! The call protocol end to end, against a simulated native module that
//! honors the wire contract: registry lookup, marshalling, the call, and
//! the decoding and conversion of results — including a higher-order call,
//! recursive vector round trips, and the extension-object lifecycle.

use std::cell::RefCell;

use cti::{ExtHandle, ManagedPackedArg, PackedArg, PackedError, PackedFunc, PackedValue, PackedVec};

/// The extension type code of the simulated extension type.
const EXT_CODE: u32 = 32;

/// A simulated native module honoring the wire contract: a registry of
/// named entry points and a packed call implementation over the parallel
/// type-code and value arrays. Handles are small integers; extension
/// objects live in a table whose entries count their transforms and record
/// their releases.
struct FakeModule {
    ext_objects: RefCell<Vec<ExtObject>>,
}

struct ExtObject {
    transforms: u32,
    released: bool,
}

const H_HELLO: usize = 1;
const H_APPEND_STR: usize = 2;
const H_TEST_APPEND_STR: usize = 3;
const H_VECTOR_ADD: usize = 4;
const H_EXT_NEW: usize = 5;
const H_EXT_RELEASE: usize = 6;
const H_EXT_TRANSFORM: usize = 7;
const H_EXT_GET: usize = 8;

/// Extension object addresses start here; the object's index is the offset.
const EXT_BASE: usize = 0x1000;

impl FakeModule {
    fn new() -> FakeModule {
        FakeModule { ext_objects: RefCell::new(Vec::new()) }
    }

    /// The native registry: names registered under the "PackedFunc" tag
    /// resolve to non-null handles, anything else to the null handle.
    fn registry_get(&self, tag: &str, name: &str) -> usize {
        if tag != "PackedFunc" {
            return 0;
        }
        match name {
            "hello" => H_HELLO,
            "append_str" => H_APPEND_STR,
            "test_append_str" => H_TEST_APPEND_STR,
            "vector_add" => H_VECTOR_ADD,
            "ext_new" => H_EXT_NEW,
            "ext_release" => H_EXT_RELEASE,
            "ext_transform" => H_EXT_TRANSFORM,
            "ext_get" => H_EXT_GET,
            _ => 0,
        }
    }

    fn registry_list_names(&self, tag: &str) -> Vec<String> {
        if tag != "PackedFunc" {
            return Vec::new();
        }
        ["hello", "append_str", "test_append_str", "vector_add", "ext_new", "ext_release",
            "ext_transform", "ext_get"]
            .iter()
            .map(|s| s.to_string())
            .collect()
    }

    /// The native packed call: consumes the marshalled arrays, returns a
    /// status code and fills the output slots.
    fn call(&self, handle: usize, type_codes: &[u32], values: &[PackedValue]) -> (i32, u32, PackedValue) {
        match handle {
            H_HELLO => {
                let a = as_i64(type_codes[0], &values[0]);
                let b = as_i64(type_codes[1], &values[1]);
                (0, 1, PackedValue::Int64(a + b))
            }
            H_APPEND_STR => {
                let a = as_str(type_codes[0], &values[0]);
                let b = as_str(type_codes[1], &values[1]);
                (0, 4, PackedValue::Str(format!("{}{}", a, b)))
            }
            H_TEST_APPEND_STR => {
                // a higher-order entry point: calls back the function handle
                // it was given, with the two strings joined by a space
                let f = as_func(type_codes[0], &values[0]);
                let a = as_str(type_codes[1], &values[1]);
                let b = as_str(type_codes[2], &values[2]);
                let spaced = format!("{} ", a);
                let args = [PackedValue::Str(spaced), PackedValue::Str(b.to_string())];
                self.call(f, &[4, 4], &args)
            }
            H_VECTOR_ADD => {
                // adds ten to every element of its nested first argument
                let out = add_ten(type_codes[0], &values[0]);
                (0, 6, out)
            }
            H_EXT_NEW => {
                let mut objs = self.ext_objects.borrow_mut();
                objs.push(ExtObject { transforms: 0, released: false });
                (0, EXT_CODE, PackedValue::Ptr(EXT_BASE + objs.len() - 1))
            }
            H_EXT_RELEASE => {
                let p = as_ptr(type_codes[0], &values[0]);
                let mut objs = self.ext_objects.borrow_mut();
                let obj = &mut objs[p - EXT_BASE];
                assert!(!obj.released, "native object released twice");
                obj.released = true;
                (0, 1, PackedValue::Int64(0))
            }
            H_EXT_TRANSFORM => {
                let p = as_ptr(type_codes[0], &values[0]);
                let transforms = {
                    let objs = self.ext_objects.borrow();
                    objs[p - EXT_BASE].transforms
                };
                let mut objs = self.ext_objects.borrow_mut();
                objs.push(ExtObject { transforms: transforms + 1, released: false });
                (0, EXT_CODE, PackedValue::Ptr(EXT_BASE + objs.len() - 1))
            }
            H_EXT_GET => {
                let p = as_ptr(type_codes[0], &values[0]);
                let objs = self.ext_objects.borrow();
                let n = objs[p - EXT_BASE].transforms;
                let mut name = String::from("run!");
                for _ in 0..n {
                    name.push('!');
                }
                (0, 4, PackedValue::Str(name))
            }
            _ => (-1, 0, PackedValue::Int64(0)),
        }
    }
}

fn as_i64(code: u32, v: &PackedValue) -> i64 {
    assert_eq!(code, 1);
    match v {
        PackedValue::Int64(i) => *i,
        other => panic!("expected the signed member, got {:?}", other),
    }
}

fn as_str<'a>(code: u32, v: &'a PackedValue) -> &'a str {
    assert_eq!(code, 4);
    match v {
        PackedValue::Str(s) => s.as_str(),
        other => panic!("expected the string member, got {:?}", other),
    }
}

fn as_func(code: u32, v: &PackedValue) -> usize {
    assert_eq!(code, 5);
    match v {
        PackedValue::Func(h) => *h,
        other => panic!("expected the function member, got {:?}", other),
    }
}

fn as_ptr(code: u32, v: &PackedValue) -> usize {
    assert!(code == 3 || code > 6);
    match v {
        PackedValue::Ptr(p) => *p,
        other => panic!("expected the pointer member, got {:?}", other),
    }
}

fn add_ten(code: u32, v: &PackedValue) -> PackedValue {
    match v {
        PackedValue::Int64(i) => {
            assert_eq!(code, 1);
            PackedValue::Int64(i + 10)
        }
        PackedValue::Vector(pv) => {
            assert_eq!(code, 6);
            PackedValue::Vector(PackedVec {
                type_code: pv.type_code,
                elems: pv.elems.iter().map(|e| add_ten(pv.type_code, e)).collect(),
            })
        }
        other => panic!("expected integers or vectors, got {:?}", other),
    }
}

/// Marshal the arguments, run the simulated native call, and interpret the
/// reply: the whole call protocol in one helper.
fn packed_call(
    module: &FakeModule,
    func: &PackedFunc,
    args: Vec<ManagedPackedArg>,
) -> Result<PackedArg, PackedError> {
    let (type_codes, values) = cti::call::marshal(&args);
    let (status, ret_type, ret_val) = module.call(func.handle, &type_codes, &values);
    cti::call::complete_call(status, ret_type, &ret_val)
}

fn resolve(module: &FakeModule, name: &str) -> Result<PackedFunc, PackedError> {
    let handle = module.registry_get("PackedFunc", name);
    PackedFunc::resolve(name, handle)
}

#[test]
fn scenario_hello_adds_two_ints() {
    let module = FakeModule::new();
    assert!(module.registry_list_names("PackedFunc").contains(&"hello".to_string()));
    let hello = resolve(&module, "hello").unwrap();
    let args = vec![ManagedPackedArg::from_i64(1), ManagedPackedArg::from_i64(2)];
    let result = packed_call(&module, &hello, args).unwrap().into_i64().unwrap();
    assert_eq!(result, 3);
}

#[test]
fn scenario_append_str_concatenates() {
    let module = FakeModule::new();
    let append_str = resolve(&module, "append_str").unwrap();
    let args = vec![
        ManagedPackedArg::new_string("hello").unwrap(),
        ManagedPackedArg::new_string("world").unwrap(),
    ];
    let result = packed_call(&module, &append_str, args).unwrap().into_string().unwrap();
    assert_eq!(result, "helloworld");
}

#[test]
fn scenario_higher_order_function_argument() {
    let module = FakeModule::new();
    let append_str = resolve(&module, "append_str").unwrap();
    let test_append_str = resolve(&module, "test_append_str").unwrap();
    let args = vec![
        ManagedPackedArg::from_func(append_str),
        ManagedPackedArg::new_string("append").unwrap(),
        ManagedPackedArg::new_string("str").unwrap(),
    ];
    let result = packed_call(&module, &test_append_str, args).unwrap().into_string().unwrap();
    assert_eq!(result, "append str");
}

#[test]
fn scenario_vector_add_round_trips_nested_vectors() {
    let module = FakeModule::new();
    let vector_add = resolve(&module, "vector_add").unwrap();
    let nested: Vec<Vec<i32>> = vec![vec![1, 2, 3], vec![4]];
    let flat: Vec<i32> = vec![1, 2, 3, 4];

    let nested_arg = ManagedPackedArg::new_vec(
        nested
            .iter()
            .map(|row| {
                ManagedPackedArg::new_vec(
                    row.iter().map(|x| ManagedPackedArg::from_i32(*x)).collect(),
                )
                .unwrap()
            })
            .collect(),
    )
    .unwrap();
    let flat_arg = ManagedPackedArg::new_vec(
        flat.iter().map(|x| ManagedPackedArg::from_i32(*x)).collect(),
    )
    .unwrap();

    let result = packed_call(&module, &vector_add, vec![nested_arg, flat_arg]).unwrap();
    let mut out: Vec<Vec<i32>> = Vec::new();
    for row in result.into_vec().unwrap() {
        let mut r = Vec::new();
        for x in row.into_vec().unwrap() {
            r.push(x.into_i32().unwrap());
        }
        out.push(r);
    }
    assert_eq!(out, vec![vec![11, 12, 13], vec![14]]);
}

#[test]
fn scenario_extension_object_lifecycle() {
    let module = FakeModule::new();
    let ext_new = resolve(&module, "ext_new").unwrap();
    let ext_transform = resolve(&module, "ext_transform").unwrap();
    let ext_get = resolve(&module, "ext_get").unwrap();
    let ext_release = resolve(&module, "ext_release").unwrap();

    // construct through the registered "new" entry point
    let ret = packed_call(&module, &ext_new, Vec::new()).unwrap();
    let mut obj = ExtHandle::owned_from_result(EXT_CODE, ret).unwrap();

    // two transforms, each returning a new owned handle of the same type
    let mut owned = vec![];
    for _ in 0..2 {
        let ret = packed_call(&module, &ext_transform, vec![obj.as_arg().unwrap()]).unwrap();
        let next = ExtHandle::owned_from_result(EXT_CODE, ret).unwrap();
        owned.push(obj);
        obj = next;
    }

    // the name that the simulated module exposes after two transforms
    let ret = packed_call(&module, &ext_get, vec![obj.as_arg().unwrap()]).unwrap();
    let name = ret.into_string().unwrap();
    assert_eq!(name, "run!!!");

    // every owned handle is released exactly once on the way out
    owned.push(obj);
    for mut h in owned {
        if let Some(p) = h.release() {
            let arg = ManagedPackedArg::Base(PackedArg::Ext(EXT_CODE, p));
            packed_call(&module, &ext_release, vec![arg]).unwrap();
        }
        // a second release decides against invoking the destructor
        assert_eq!(h.release(), None);
        // and the released handle refuses to be packed again
        assert_eq!(h.as_arg().unwrap_err(), PackedError::UseAfterRelease);
    }
    assert!(module.ext_objects.borrow().iter().all(|o| o.released));
}

#[test]
fn release_on_borrowed_never_invokes_the_destructor() {
    let mut borrowed =
        ExtHandle::borrowed_from_result(EXT_CODE, PackedArg::Ext(EXT_CODE, 0x2000)).unwrap();
    assert!(!borrowed.is_owned());
    assert_eq!(borrowed.release(), None);
    assert_eq!(borrowed.release(), None);
}

#[test]
fn resolving_twice_behaves_identically() {
    let module = FakeModule::new();
    let first = resolve(&module, "hello").unwrap();
    let second = resolve(&module, "hello").unwrap();
    assert_eq!(first.handle, second.handle);

    let args1 = vec![ManagedPackedArg::from_i64(20), ManagedPackedArg::from_i64(22)];
    let args2 = vec![ManagedPackedArg::from_i64(20), ManagedPackedArg::from_i64(22)];
    let r1 = packed_call(&module, &first, args1).unwrap().into_i64().unwrap();
    let r2 = packed_call(&module, &second, args2).unwrap().into_i64().unwrap();
    assert_eq!(r1, r2);
    assert_eq!(r1, 42);
}

#[test]
fn unregistered_name_is_not_found() {
    let module = FakeModule::new();
    assert_eq!(resolve(&module, "no_such_fn").unwrap_err(), PackedError::NotFound);
    assert_eq!(
        PackedFunc::resolve("anything", module.registry_get("OtherTag", "hello")).unwrap_err(),
        PackedError::NotFound
    );
}

#[test]
fn native_failure_surfaces_as_native_call_error() {
    let module = FakeModule::new();
    // an unknown handle: the simulated module answers with a failure status
    let bogus = PackedFunc::resolve("bogus", 0x77).unwrap();
    let err = packed_call(&module, &bogus, Vec::new()).unwrap_err();
    assert_eq!(err, PackedError::NativeCall(-1));
}

#[test]
fn find_lib_forms_the_platform_file_name() {
    assert_eq!(
        cti::registry::_find_lib("../build/", "test_ctypes"),
        "../build/libtest_ctypes.so"
    );
}
