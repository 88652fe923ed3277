use oes::syscall_check::{
    check_item, check_signature, check_syscall_sig, get_type_name, syscall_impl, Abi, ArrayLen,
    ReturnShape, SignatureShape, TypeShape,
};
use oes::syscall_table::{Syscall, SyscallType};

fn good() -> SignatureShape {
    SignatureShape {
        is_variadic: false,
        is_unsafe: true,
        abi: Abi::Named("C".to_string()),
        has_receiver: false,
        is_async: false,
    }
}

#[test]
fn a_good_signature_passes() {
    assert!(check_signature(&good()).is_ok());
    assert!(check_item(&good(), true).is_ok());
}

#[test]
fn every_fault_is_reported_in_order() {
    let sig = SignatureShape {
        is_variadic: true,
        is_unsafe: false,
        abi: Abi::Named("system".to_string()),
        has_receiver: true,
        is_async: true,
    };
    let e = check_signature(&sig).unwrap_err();
    assert_eq!(
        e.0,
        vec![
            "Syscall cannot be a variadic function".to_string(),
            "Syscall implementations have a safety requirements, and can be not sound if done wrong. Mark function, as `unsafe` to mark as such".to_string(),
            "Syscall function must be marked with `extern \"C\". Found `extern \"system\"`".to_string(),
            "Syscall function cannot be a receiver".to_string(),
            "async functions are not ffi safe and require generic ".to_string(),
        ]
    );
}

#[test]
fn incorrect_signature_display() {
    let mut sig = good();
    sig.is_variadic = true;
    sig.is_async = true;
    let e = check_signature(&sig).unwrap_err();
    assert_eq!(
        e.message(),
        "Error: Syscall cannot be a variadic function\nError: async functions are not ffi safe and require generic \n"
    );
}

#[test]
fn abi_faults() {
    let mut sig = good();
    sig.abi = Abi::Unnamed;
    assert_eq!(
        check_signature(&sig).unwrap_err().0,
        vec!["Syscall function must be marked with `extern \"C\"`. Found just `extern`".to_string()]
    );
    sig.abi = Abi::NoExtern;
    assert_eq!(
        check_signature(&sig).unwrap_err().0,
        vec!["Syscall functions must be marked `extern \"C\"`. Found no extern, cannot use Rust's ABI".to_string()]
    );
}

#[test]
fn item_visibility() {
    assert_eq!(
        check_item(&good(), false).unwrap_err().0,
        vec!["Syscalls should not be visible to rust code".to_string()]
    );
    let mut sig = good();
    sig.is_async = true;
    assert_eq!(
        check_item(&sig, false).unwrap_err().0,
        vec![
            "async functions are not ffi safe and require generic ".to_string(),
            "no visibility for a syscall".to_string(),
        ]
    );
}

#[test]
fn function_check_messages() {
    assert!(check_syscall_sig(true, &Abi::Named("C".to_string()), "#0 bytes(1..2)").is_ok());
    let m = check_syscall_sig(false, &Abi::Named("Rust".to_string()), "S").unwrap_err();
    assert_eq!(
        m,
        vec![
            "Function `S` is marked as safe. Needs to be marked as unsafe with the `unsafe` keyword".to_string(),
            "Function `S` needs to be marked as `extern \"C\"`.\nWas marked with the Rust".to_string(),
        ]
    );
    let m = check_syscall_sig(true, &Abi::Unnamed, "S").unwrap_err();
    assert_eq!(m, vec!["Function `S` needs to be marked as `extern \"C\"`.\nNot specifying a abi is trying to get phased out by the Rust team".to_string()]);
    let m = check_syscall_sig(true, &Abi::NoExtern, "S").unwrap_err();
    assert_eq!(m, vec!["Function `S` needs to be marked as `extern \"C\"`".to_string()]);
}

#[test]
fn return_types() {
    assert!(syscall_impl(ReturnShape::Default).is_ok());
    assert!(syscall_impl(ReturnShape::Other).is_ok());
    assert_eq!(syscall_impl(ReturnShape::Slice).unwrap_err().reason(), "Cannot pass a rust pointer to Userspace");
    assert_eq!(syscall_impl(ReturnShape::BareFn).unwrap_err().reason(), "Cannot pass a rust pointer to Userspace");
    assert_eq!(
        syscall_impl(ReturnShape::Reference).unwrap_err().message(),
        "Syscall Bad Return Type: Cannot pass a rust pointer to Userspace. If you need to pass a pointer, use a raw pointer"
    );
    assert_eq!(syscall_impl(ReturnShape::Infer).unwrap_err().reason(), "Cannot infer syscall function. This is to prevent breaking userspace");
    assert_eq!(syscall_impl(ReturnShape::Macro).unwrap_err().reason(), "No macros as return (How do you even get this?)");
}

#[test]
fn type_names() {
    let u8t = TypeShape::Path(Some("u8".to_string()));
    assert_eq!(get_type_name(&u8t), Some("u8".to_string()));
    let r = TypeShape::Reference(Box::new(TypeShape::Path(Some("Task".to_string()))));
    assert_eq!(get_type_name(&r), Some("Task".to_string()));
    let a = TypeShape::Array(Box::new(u8t), ArrayLen::IntLit("4".to_string()));
    assert_eq!(get_type_name(&a), Some("[u8;4]".to_string()));
    let nested = TypeShape::Array(Box::new(a), ArrayLen::Infer);
    assert_eq!(get_type_name(&nested), Some("[[u8;4];_]".to_string()));
    assert_eq!(get_type_name(&TypeShape::Path(None)), None);
    assert_eq!(get_type_name(&TypeShape::Other), None);
    let unnamed = TypeShape::Array(Box::new(TypeShape::Other), ArrayLen::OtherExpr);
    assert_eq!(get_type_name(&unnamed), None);
}

#[test]
fn syscall_kinds_parse_in_any_case() {
    assert_eq!("std".parse::<SyscallType>().unwrap(), SyscallType::STD);
    assert_eq!(SyscallType::parse("Unimpl").unwrap(), SyscallType::Unimplemented);
    assert_eq!(SyscallType::parse("ext").unwrap(), SyscallType::Ext);
    let e = SyscallType::parse("posix").unwrap_err();
    assert_eq!(e.as_str(), "posix");
    assert_eq!(e.message(), "Invalid Syscall Type: `posix`");
    assert_eq!(e.debug_text(), "InvalidSyscallTypeError { .. }");
    assert_eq!("foo".parse::<SyscallType>().unwrap_err().as_str(), "foo");
    assert_eq!(SyscallType::from_uppercase("ext", "EXT".to_string()).unwrap(), SyscallType::Ext);
    let e = SyscallType::from_uppercase("Ext", "ext".to_string()).unwrap_err();
    assert_eq!(e.as_str(), "Ext");
}

#[test]
fn syscall_records() {
    let s = Syscall::new(57, "fork", SyscallType::STD);
    assert_eq!(s.name(), "fork");
    assert_eq!(s.get_type(), SyscallType::STD);
    let b = Syscall::bare();
    assert_eq!(b.name(), "Bare");
    assert_eq!(b.get_type(), SyscallType::Unimplemented);
    assert_eq!(Syscall::default().name(), "Bare");
}
