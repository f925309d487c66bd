use handle_rs::{Handle, HandleArray, IHandleArrayItem};

#[derive(Debug, Clone, PartialEq)]
struct Named {
    name: String,
    handle: Handle,
}

impl IHandleArrayItem for Named {
    fn get_handle(&self) -> Handle {
        self.handle
    }

    fn set_handle(&mut self, handle: Handle) {
        self.handle = handle;
    }
}

impl Default for Named {
    fn default() -> Self {
        Named { name: String::new(), handle: Handle::default() }
    }
}

fn named(name: &str) -> Named {
    Named { name: name.to_string(), handle: Handle::default() }
}

fn alive_pairs(ha: &HandleArray<Named>) -> Vec<(usize, String)> {
    let mut out = Vec::new();
    let mut it = ha.alive_iter();
    while let Some((i, v)) = it.next() {
        out.push((i, v.name.clone()));
    }
    out
}

fn h(index: usize, generation: usize) -> Handle {
    Handle { index, generation }
}

#[test]
fn example_scenario() {
    let mut ha = HandleArray::<Named>::new(1000);
    let h0 = ha.add_item(named("A"));
    let h1 = ha.add_item(named("B"));
    let h2 = ha.add_item(named("C"));
    assert_eq!((h0, h1, h2), (h(1, 0), h(2, 0), h(3, 0)));
    assert_eq!(ha.get(h0).name, "A");
    assert_eq!(
        alive_pairs(&ha),
        vec![(1, "A".to_string()), (2, "B".to_string()), (3, "C".to_string())]
    );
    ha.remove_item(h0);
    assert_eq!(alive_pairs(&ha), vec![(2, "B".to_string()), (3, "C".to_string())]);
    let h3 = ha.add_item(named("D"));
    assert_eq!(h3, h(1, 1));
    assert_eq!(
        alive_pairs(&ha),
        vec![(1, "D".to_string()), (2, "B".to_string()), (3, "C".to_string())]
    );
}

#[test]
fn inserted_handles_are_never_null() {
    let mut ha = HandleArray::<Named>::new(0);
    for k in 0..20 {
        let hd = ha.add_item(named(&format!("v{}", k)));
        assert!(hd.index >= 1);
    }
    let mut it = ha.alive_iter();
    while let Some((i, _)) = it.next() {
        assert_ne!(i, 0);
    }
}

#[test]
fn get_after_insert_returns_value_with_its_handle() {
    let mut ha = HandleArray::<Named>::new(4);
    let first = ha.add_item(named("first"));
    let second = ha.add_item(Named { name: "second".to_string(), handle: h(77, 9) });
    assert_eq!(*ha.get(first), Named { name: "first".to_string(), handle: first });
    assert_eq!(*ha.get(second), Named { name: "second".to_string(), handle: second });
    assert_eq!(ha.get(second).get_handle(), h(2, 0));
}

#[test]
fn alive_count_follows_inserts_and_removes() {
    let mut ha = HandleArray::<Named>::new(2);
    assert_eq!(alive_pairs(&ha).len(), 0);
    let a = ha.add_item(named("a"));
    let b = ha.add_item(named("b"));
    let c = ha.add_item(named("c"));
    let d = ha.add_item(named("d"));
    assert_eq!(alive_pairs(&ha).len(), 4);
    ha.remove_item(b);
    ha.remove_item(d);
    assert_eq!(alive_pairs(&ha).len(), 2);
    let _ = ha.add_item(named("e"));
    assert_eq!(alive_pairs(&ha).len(), 3);
    ha.remove_item(a);
    ha.remove_item(c);
    assert_eq!(alive_pairs(&ha).len(), 1);
}

#[test]
fn removed_slot_is_reused_last_in_first_out() {
    let mut ha = HandleArray::<Named>::new(8);
    let a = ha.add_item(named("a"));
    let b = ha.add_item(named("b"));
    let _ = ha.add_item(named("c"));
    ha.remove_item(a);
    ha.remove_item(b);
    let again_b = ha.add_item(named("x"));
    assert_eq!(again_b, h(b.index, b.generation + 1));
    let again_a = ha.add_item(named("y"));
    assert_eq!(again_a, h(a.index, a.generation + 1));
    let fresh = ha.add_item(named("z"));
    assert_eq!(fresh, h(4, 0));
    ha.remove_item(again_b);
    let third = ha.add_item(named("w"));
    assert_eq!(third, h(2, 2));
}

#[test]
fn remove_empties_the_slot() {
    let mut ha = HandleArray::<Named>::new(8);
    let a = ha.add_item(named("a"));
    let _ = ha.add_item(named("b"));
    ha.remove_item(a);
    assert_eq!(*ha.get(a), Named::default());
    assert_eq!(alive_pairs(&ha), vec![(2, "b".to_string())]);
}

#[test]
fn mutation_through_alive_iter_mut_is_visible() {
    let mut ha = HandleArray::<Named>::new(8);
    let a = ha.add_item(named("a"));
    let b = ha.add_item(named("b"));
    ha.remove_item(a);
    let mut seen = Vec::new();
    let mut it = ha.alive_iter_mut();
    while let Some((i, v)) = it.next() {
        seen.push(i);
        v.name.push_str("!");
    }
    assert_eq!(seen, vec![2]);
    assert_eq!(ha.get(b).name, "b!");
    assert_eq!(alive_pairs(&ha), vec![(2, "b!".to_string())]);
}

#[test]
fn get_mut_writes_into_the_slot() {
    let mut ha = HandleArray::<Named>::new(1);
    let a = ha.add_item(named("a"));
    ha.get_mut(a).name = "changed".to_string();
    assert_eq!(ha.get(a).name, "changed");
}

#[test]
fn raw_iteration_covers_every_slot() {
    let mut ha = HandleArray::<Named>::new(1);
    assert_eq!(ha.iter().count(), 0);
    let a = ha.add_item(named("a"));
    let _ = ha.add_item(named("b"));
    ha.remove_item(a);
    let names: Vec<String> = ha.iter().map(|v| v.name.clone()).collect();
    assert_eq!(names, vec!["".to_string(), "".to_string(), "b".to_string()]);
    for v in ha.iter_mut() {
        v.name.push('.');
    }
    let names: Vec<String> = ha.iter().map(|v| v.name.clone()).collect();
    assert_eq!(names, vec![".".to_string(), ".".to_string(), "b.".to_string()]);
}

#[test]
fn empty_store_yields_nothing() {
    let mut ha = HandleArray::<Named>::new(16);
    assert!(ha.alive_iter().next().is_none());
    assert!(ha.alive_iter_mut().next().is_none());
}

#[test]
fn handle_default_is_null() {
    assert_eq!(Handle::default(), h(0, 0));
}

#[test]
fn handle_renders_index_and_generation() {
    assert_eq!(h(12, 305).to_string(), "[index:12,gen:305]");
    assert_eq!(Handle::default().to_string(), "[index:0,gen:0]");
    assert_eq!(h(usize::MAX, 7).to_string(), format!("[index:{},gen:7]", usize::MAX));
}
