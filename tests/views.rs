use gpui_views::any_view::{AnyView, EraseAnyViewState};
use gpui_views::context::{Bounds, ElementId, Handle, LayoutId, PaintRecord, ViewError, WindowContext};
use gpui_views::element::{leaf, AnyBox, AnyElement, Render};
use gpui_views::view::{view, EraseViewState, View};

fn bounds() -> Bounds {
    Bounds { x: 0, y: 0, width: 10, height: 10 }
}

fn setup(value: u64) -> (WindowContext, Handle, View) {
    let mut cx = WindowContext::new();
    let h = cx.new_entity(value);
    let v = view(h, Render::StateLeaf);
    (cx, h, v)
}

#[test]
fn view_clone_keeps_id_and_state() {
    let (mut cx, _h, v) = setup(1);
    let w = v.clone();
    assert_eq!(v.id(), w.id());
    assert_eq!(v.id(), Some(ElementId::View(0)));
    cx.update(v.entity_handle(), 7).unwrap();
    assert_eq!(cx.read(w.entity_handle()), Ok(7));
}

#[test]
fn any_view_clone_keeps_id_and_state() {
    let (mut cx, _h, v) = setup(1);
    let a: AnyView = v.into_any();
    let b = a.clone();
    assert_eq!(a.id(), b.id());
    assert_eq!(a.entity_handle(), b.entity_handle());
    cx.update(a.entity_handle(), 9).unwrap();
    assert_eq!(cx.read(b.entity_handle()), Ok(9));
}

#[test]
fn erasure_keeps_identity() {
    let mut cx = WindowContext::new();
    cx.new_entity(0);
    let h = cx.new_entity(5);
    let v = view(h, Render::StateLeaf);
    let typed: EraseViewState<u32> = v.into_element();
    let erased = v.into_any();
    let erased_adapter: EraseAnyViewState<String> = erased.clone().into_element();
    assert_eq!(v.id(), Some(ElementId::View(1)));
    assert_eq!(typed.id(), v.id());
    assert_eq!(erased.id(), v.id());
    assert_eq!(erased_adapter.id(), v.id());
    assert_eq!(erased.entity_handle(), h);
}

#[test]
fn lifecycle_in_order_never_mismatches() {
    let (mut cx, _h, v) = setup(3);
    let typed: EraseViewState<()> = v.into_element();
    let mut parent = ();
    let mut e = typed.initialize(&mut parent, None, &mut cx).unwrap();
    assert_eq!(typed.layout(&mut parent, &mut e, &mut cx), Ok(LayoutId(0)));
    assert_eq!(typed.paint(bounds(), &mut parent, &mut e, &mut cx), Ok(()));
    assert_eq!(
        cx.painted().clone(),
        vec![PaintRecord { scope: Some(ElementId::View(0)), value: 3 }]
    );
}

#[test]
fn clones_share_one_element_state() {
    let (mut cx, _h, v) = setup(11);
    let a = v.into_any();
    let b = a.clone();
    let mut e = a.initialize(&mut (), None, &mut cx).unwrap();
    assert_eq!(b.layout(&mut (), &mut e, &mut cx), Ok(LayoutId(0)));
    assert_eq!(e.element, AnyElement { value: 11, layout_id: Some(LayoutId(0)) });
    assert_eq!(b.paint(bounds(), &mut (), &mut e, &mut cx), Ok(()));
    assert_eq!(cx.painted()[0].value, 11);
}

#[test]
fn layout_after_mutation_keeps_initialized_tree() {
    let (mut cx, h, v) = setup(42);
    let a = v.into_any();
    let mut e = a.initialize(&mut (), None, &mut cx).unwrap();
    assert_eq!(e.element, leaf(42));
    let first = a.layout(&mut (), &mut e, &mut cx).unwrap();
    cx.update(h, 43).unwrap();
    assert_eq!(cx.read(h), Ok(43));
    let second = a.layout(&mut (), &mut e, &mut cx).unwrap();
    assert_ne!(first, second);
    assert_eq!(e.element.value, 42);
    a.paint(bounds(), &mut (), &mut e, &mut cx).unwrap();
    assert_eq!(cx.painted()[0].value, 42);
}

#[test]
fn reentrant_update_fails_fast() {
    let (mut cx, h, v) = setup(42);
    assert_eq!(cx.begin_update(h), Ok(42));
    assert_eq!(cx.update(h, 1), Err(ViewError::ReentrantUpdate));
    assert_eq!(cx.begin_update(h), Err(ViewError::ReentrantUpdate));
    assert_eq!(v.initialize_any(&mut cx), Err(ViewError::ReentrantUpdate));
    cx.end_update(h, 43);
    assert_eq!(cx.update(h, 44), Ok(()));
    assert_eq!(cx.read(h), Ok(44));
}

#[test]
fn lifecycle_under_borrow_changes_nothing() {
    let (mut cx, h, v) = setup(2);
    let mut e = v.initialize_any(&mut cx).unwrap();
    cx.begin_update(h).unwrap();
    assert_eq!(v.layout_any(&mut e, &mut cx), Err(ViewError::ReentrantUpdate));
    assert_eq!(v.paint_any(bounds(), &mut e, &mut cx), Err(ViewError::ReentrantUpdate));
    assert_eq!(e.element, leaf(2));
    assert!(cx.painted().is_empty());
}

#[test]
fn state_of_another_node_is_refused() {
    let mut cx = WindowContext::new();
    let h1 = cx.new_entity(1);
    let h2 = cx.new_entity(2);
    let v1 = view(h1, Render::StateLeaf);
    let v2 = view(h2, Render::StateLeaf);
    let mut e1 = v1.initialize_any(&mut cx).unwrap();
    assert_eq!(v2.layout_any(&mut e1, &mut cx), Err(ViewError::StateTypeMismatch));
    assert_eq!(v2.paint_any(bounds(), &mut e1, &mut cx), Err(ViewError::StateTypeMismatch));
    assert_eq!(e1, AnyBox { tag: 0, element: leaf(1) });
    assert_eq!(v1.layout_any(&mut e1, &mut cx), Ok(LayoutId(0)));
}

#[test]
fn unknown_entity_is_refused() {
    let mut cx = WindowContext::new();
    let v = view(Handle { entity_id: 3 }, Render::StateLeaf);
    assert_eq!(v.initialize_any(&mut cx), Err(ViewError::UnknownEntity));
    assert_eq!(cx.read(Handle { entity_id: 3 }), Err(ViewError::UnknownEntity));
    assert_eq!(cx.update(Handle { entity_id: 3 }, 1), Err(ViewError::UnknownEntity));
}

#[test]
fn fixed_render_ignores_state() {
    let mut cx = WindowContext::new();
    let h = cx.new_entity(5);
    let v = view(h, Render::FixedLeaf(8));
    let mut e = v.initialize(&mut (), None, &mut cx).unwrap();
    assert_eq!(e, leaf(8));
    assert_eq!(v.layout(&mut (), &mut e, &mut cx), Ok(LayoutId(0)));
    assert_eq!(v.paint(bounds(), &mut (), &mut e, &mut cx), Ok(()));
    assert_eq!(cx.painted()[0], PaintRecord { scope: None, value: 8 });
}

#[test]
fn layout_ids_are_handed_out_in_order() {
    let (mut cx, _h, v) = setup(0);
    let mut e = v.initialize_any(&mut cx).unwrap();
    assert_eq!(v.layout_any(&mut e, &mut cx), Ok(LayoutId(0)));
    assert_eq!(e.element.layout_id, Some(LayoutId(0)));
    assert_eq!(v.layout_any(&mut e, &mut cx), Ok(LayoutId(1)));
    assert_eq!(e.element.layout_id, Some(LayoutId(1)));
}

#[test]
fn element_id_scope_is_restored() {
    let (mut cx, _h, v) = setup(4);
    cx.push_element_id(ElementId::View(99));
    let mut e = v.initialize_any(&mut cx).unwrap();
    assert_eq!(cx.current_element_id(), Some(ElementId::View(99)));
    v.paint_any(bounds(), &mut e, &mut cx).unwrap();
    assert_eq!(cx.painted()[0].scope, Some(ElementId::View(0)));
    assert_eq!(cx.pop_element_id(), Some(ElementId::View(99)));
    assert_eq!(cx.pop_element_id(), None);
}

#[test]
fn erased_adapter_drives_lifecycle() {
    let (mut cx, _h, v) = setup(6);
    let adapter: EraseAnyViewState<Vec<u8>> = v.into_any().into_element();
    let mut parent: Vec<u8> = vec![1, 2];
    let mut e = adapter.initialize(&mut parent, None, &mut cx).unwrap();
    assert_eq!(adapter.layout(&mut parent, &mut e, &mut cx), Ok(LayoutId(0)));
    assert_eq!(adapter.paint(bounds(), &mut parent, &mut e, &mut cx), Ok(()));
    assert_eq!(parent, vec![1, 2]);
    assert_eq!(cx.painted()[0], PaintRecord { scope: Some(ElementId::View(0)), value: 6 });
}
