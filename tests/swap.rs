use handle_guard::class::{ClassTag, Hierarchy};
use handle_guard::engine::Engine;
use handle_guard::handle::{Handle, TypeMismatch};

struct Classes {
    object: ClassTag,
    node: ClassTag,
    node_3d: ClassTag,
    payload: ClassTag,
}

fn engine() -> (Engine, Classes) {
    let mut h = Hierarchy::new();
    let object = Hierarchy::root();
    let node = h.add_class(object, false).unwrap();
    let node_3d = h.add_class(node, false).unwrap();
    let payload = h.add_class(object, true).unwrap();
    (Engine::new(h), Classes { object, node, node_3d, payload })
}

fn swapped_free(e: &mut Engine, mut lhs: Handle, mut rhs: Handle) {
    lhs.swap_raw(&mut rhs);
    assert_eq!(lhs.release(e), Ok(()));
    assert_eq!(rhs.release(e), Ok(()));
}

#[test]
fn object_subtype_swap_method() {
    let (mut e, c) = engine();
    let mut node = Handle::construct(&mut e, c.node);
    let mut node_3d = Handle::construct(&mut e, c.node_3d);
    let n_id = node.instance_id();
    let n3_id = node_3d.instance_id();

    node.swap_raw(&mut node_3d);

    assert_eq!(node.instance_id(), n3_id);
    assert_eq!(node_3d.instance_id(), n_id);
    assert_eq!(node.call_typed_method(&e, c.object), Ok(n3_id));
    assert_eq!(node.classify(&e), c.node_3d);
    assert_eq!(node_3d.classify(&e), c.node);
    assert_eq!(
        node_3d.call_typed_method(&e, c.node_3d),
        Err(TypeMismatch { declared: c.node_3d, actual: c.node })
    );

    swapped_free(&mut e, node, node_3d);
    assert!(!e.is_alive(n_id));
    assert!(!e.is_alive(n3_id));
}

#[test]
fn object_subtype_swap_clone() {
    let (mut e, c) = engine();
    let mut obj = Handle::construct(&mut e, c.object);
    let mut node = Handle::construct(&mut e, c.node);

    obj.swap_raw(&mut node);

    assert_eq!(
        node.duplicate_reference(&e).unwrap_err(),
        TypeMismatch { declared: c.node, actual: c.object }
    );

    swapped_free(&mut e, obj, node);
}

#[test]
fn object_subtype_swap_free() {
    let (mut e, c) = engine();
    let mut obj = Handle::construct(&mut e, c.object);
    let mut node = Handle::construct(&mut e, c.node);
    let obj_copy = obj.duplicate_reference(&e).unwrap();
    let node_copy = node.duplicate_reference(&e).unwrap();

    obj.swap_raw(&mut node);

    assert_eq!(node.release(&mut e), Err(TypeMismatch { declared: c.node, actual: c.object }));
    assert!(e.is_alive(node.instance_id()));

    assert_eq!(obj_copy.release(&mut e), Ok(()));
    assert_eq!(node_copy.release(&mut e), Ok(()));
    assert!(!e.is_alive(obj_copy.instance_id()));
    assert!(!e.is_alive(node_copy.instance_id()));
}

#[test]
fn object_subtype_swap_argument_passing() {
    let (mut e, c) = engine();
    let mut obj = Handle::construct(&mut e, c.object);
    let mut node = Handle::construct(&mut e, c.node);
    let node2 = obj.duplicate_reference(&e).unwrap();

    obj.swap_raw(&mut node);

    assert_eq!(
        node.pass_to_external_api(&e, c.node),
        Err(TypeMismatch { declared: c.node, actual: c.object })
    );

    swapped_free(&mut e, obj, node2);
}

#[test]
fn object_subtype_swap_bind() {
    let (mut e, c) = engine();
    let mut obj = Handle::construct(&mut e, c.object);
    let mut user = Handle::construct(&mut e, c.payload);
    let obj_id = obj.instance_id();
    let user_id = user.instance_id();

    obj.swap_raw(&mut user);

    assert_eq!(obj.instance_id(), user_id);
    assert_eq!(user.instance_id(), obj_id);
    assert_eq!(obj.classify(&e), c.payload);
    assert_eq!(user.classify(&e), c.object);

    let mismatch = TypeMismatch { declared: c.payload, actual: c.object };
    assert_eq!(user.obtain_typed_binding(&e), Err(mismatch));
    assert_eq!(user.write_typed_binding(&mut e, 7), Err(mismatch));
    assert_eq!(e.payload_of(obj_id), 0);

    swapped_free(&mut e, obj, user);
}

#[test]
fn object_subtype_swap_casts() {
    let (mut e, c) = engine();
    let mut obj = Handle::construct(&mut e, c.object);
    let mut node3d = Handle::construct(&mut e, c.node_3d);
    let mut obj_v2 = obj.duplicate_reference(&e).unwrap();
    let mut node3d_v2 = node3d.duplicate_reference(&e).unwrap();
    let mut obj_v3 = obj.duplicate_reference(&e).unwrap();
    let mut node3d_v3 = node3d.duplicate_reference(&e).unwrap();
    let node3d_id = node3d.instance_id();

    obj.swap_raw(&mut node3d);
    obj_v2.swap_raw(&mut node3d_v2);
    obj_v3.swap_raw(&mut node3d_v3);
    drop(node3d_v3);

    assert!(node3d_v2.upcast(&e, c.object).is_err());

    let upcast_node3d = obj_v2.upcast(&e, c.object).unwrap();
    assert_eq!(upcast_node3d.instance_id(), node3d_id);

    let downcast_node = obj_v3.downcast(&e, c.node_3d).unwrap();
    assert_eq!(downcast_node.instance_id(), node3d_id);

    assert!(node3d.duplicate_reference(&e).is_err());
    assert!(node3d.downcast(&e, c.node_3d).is_err());

    swapped_free(&mut e, obj, node3d);
}

#[test]
fn object_subtype_swap_func_return() {
    let (mut e, c) = engine();
    let mut gc: Vec<Handle> = Vec::new();

    let mut object = Handle::construct(&mut e, c.object);
    let mut node = Handle::construct(&mut e, c.node);
    gc.push(object.duplicate_reference(&e).unwrap());
    gc.push(node.duplicate_reference(&e).unwrap().upcast(&e, c.object).unwrap());
    object.swap_raw(&mut node);
    object.release_dynamic(&mut e);

    assert_eq!(node.call_dynamic(&e), gc[0].instance_id());
    assert_eq!(node.classify(&e), c.object);
    assert!(!e.is_alive(gc[1].instance_id()));

    for obj in gc.drain(..) {
        if e.is_alive(obj.instance_id()) {
            assert_eq!(obj.release(&mut e), Ok(()));
        }
    }
    assert!(!e.is_alive(node.instance_id()));
}
