use kstring2::{KString, KStringCow, KStringRef};

#[test]
fn lib_test_size() {
    println!("String: {}", std::mem::size_of::<String>());
    println!(
        "Box<str>: {}",
        std::mem::size_of::<kstring2::backend::DefaultStr>()
    );
    println!(
        "Box<Box<str>>: {}",
        std::mem::size_of::<Box<kstring2::backend::DefaultStr>>()
    );
    println!("str: {}", std::mem::size_of::<&'static str>());
    println!(
        "Cow: {}",
        std::mem::size_of::<std::borrow::Cow<'static, str>>()
    );
}

#[test]
fn string_test_size() {
    println!("KString: {}", std::mem::size_of::<KString>());
}

#[test]
fn string_cow_test_size() {
    println!("KStringCow: {}", std::mem::size_of::<KStringCow<'static>>());
}

#[test]
fn string_ref_test_size() {
    println!("KStringRef: {}", std::mem::size_of::<KStringRef<'static>>());
}
