use attr::examples::Bar;
use attr::examples::Batz;
use attr::examples::Bla;
use attr::examples::Foo;
use attr::examples::Name;
use attr::examples::Numbers;
use attr::mutable::AttrMut;
use attr::Attr;
use attr::IndexableAttr;

#[test]
fn simple_access() {
    let f = Foo {
        bar: "foobar".into(),
        batz: Bla { name: "batz".into() },
        numbers: vec![20],
        vector: vec![],
    };

    let bar_val: &String = Bar.get(&f);
    assert_eq!(bar_val.as_str(), "foobar");

    let b: &Bla = Attr::get(&Batz, &f);
    assert_eq!(b.name.as_str(), "batz");

    let n = Numbers.at(&f, 0);
    assert_eq!(n, 20);

    let mut b2 = Bla { name: "foobar".into() };
    let m: &mut String = Name.get_mut(&mut b2);
    m.push('b');
    assert_eq!(b2.name.as_str(), "foobarb");
}
