use partial_init::fields::damage;
use partial_init::fields::range;
use partial_init::fields::with_name;
use partial_init::identity;
use partial_init::Init;
use partial_init::MaybeInit;
use partial_init::Uninit;

#[test]
fn identity_returns_argument() {
    assert_eq!(identity(42u32), 42u32);
    assert_eq!(identity(String::from("abc")), String::from("abc"));
}

#[test]
fn uninit_slot_is_absent() {
    let u: Uninit<with_name, String> = Default::default();
    assert_eq!(MaybeInit::<with_name, String>::get(u), None);
    let v: Uninit<damage, u32> = Default::default();
    assert_eq!(MaybeInit::<damage, u32>::get(v), None);
}

#[test]
fn uninit_clone_is_still_absent() {
    let u: Uninit<range, u32> = Default::default();
    let v = u.clone();
    let w = u;
    assert_eq!(MaybeInit::<range, u32>::get(v), None);
    assert_eq!(MaybeInit::<range, u32>::get(w), None);
}

#[test]
fn bare_value_stands_for_itself() {
    assert_eq!(Init::<damage, u32>::take(5u32), 5u32);
    assert_eq!(MaybeInit::<damage, u32>::get(5u32), Some(5u32));
    let s = String::from("Fireball");
    assert_eq!(Init::<with_name, String>::take(s.clone()), s);
}

#[test]
fn bare_value_wraps_for_container_field() {
    assert_eq!(Init::<damage, (u32,)>::take(5u32), (5u32,));
    assert_eq!(MaybeInit::<damage, (u32,)>::get(5u32), Some((5u32,)));
    let s = String::from("abc");
    assert_eq!(Init::<with_name, (String,)>::take(s.clone()), (s.clone(),));
    assert_eq!(MaybeInit::<with_name, (String,)>::get(s.clone()), Some((s,)));
}

#[test]
fn init_reads_present_with_same_value() {
    let s = String::from("Haste");
    assert_eq!(
        MaybeInit::<with_name, String>::get(s.clone()),
        Some(Init::<with_name, String>::take(s.clone())),
    );
    assert_eq!(
        MaybeInit::<damage, (u32,)>::get(9u32),
        Some(Init::<damage, (u32,)>::take(9u32)),
    );
}
