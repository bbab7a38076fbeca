use rate_policy::limit_heap::LimitHeap;

fn built(rate: i32) -> LimitHeap {
    let mut heap = LimitHeap::default();
    heap.set_original(rate);
    assert!(heap.can_build(rate));
    heap.build();
    heap
}

fn snapshot(heap: &LimitHeap) -> Vec<i32> {
    (0..255).map(|index| heap.node(index)).collect()
}

#[test]
fn default_heap_is_all_zero_with_cursor_on_root() {
    let heap = LimitHeap::default();
    assert_eq!(heap.current(), 0);
    assert_eq!(heap.original(), 0);
    assert_eq!(snapshot(&heap), vec![0; 255]);
}

#[test]
fn build_from_400_fills_the_first_levels() {
    let heap = built(400);
    let expected = [200, 300, 100, 350, 250, 150, 50, 375, 325, 275, 225, 175, 125, 75, 25];
    for (index, value) in expected.iter().enumerate() {
        assert_eq!(heap.node(index), *value, "node {}", index);
    }
    assert_eq!(heap.current(), 0);
    assert_eq!(heap.original(), 400);
}

#[test]
fn build_derives_children_from_parent_and_node() {
    // left = |parent - node| / 2 + node, right = node - |parent - node| / 2
    let heap = built(1001);
    assert_eq!(heap.node(0), 500);
    assert_eq!(heap.node(1), 500 + 250);
    assert_eq!(heap.node(2), 500 - 250);
    for node in 1..127usize {
        let parent = heap.node((node - 1) / 2);
        let value = heap.node(node);
        let step = (parent - value).abs() / 2;
        assert_eq!(heap.node(2 * node + 1), value + step, "left child of {}", node);
        assert_eq!(heap.node(2 * node + 2), value - step, "right child of {}", node);
    }
}

#[test]
fn built_tree_orders_every_node_between_its_children() {
    for rate in [0, 1, 2, 3, 6, 7, 15, 400, 401, 65_535, i32::MAX] {
        let heap = built(rate);
        for node in 0..127usize {
            assert!(heap.node(2 * node + 1) >= heap.node(node), "rate {} node {}", rate, node);
            assert!(heap.node(node) >= heap.node(2 * node + 2), "rate {} node {}", rate, node);
        }
    }
}

#[test]
fn built_tree_stays_between_zero_and_the_seed() {
    for rate in [0, 1, 3, 400, i32::MAX] {
        let heap = built(rate);
        for index in 0..255usize {
            assert!(heap.node(index) >= 0);
            assert!(heap.node(index) <= rate);
        }
    }
}

#[test]
fn left_spine_rises_and_right_spine_falls() {
    let heap = built(400);
    let mut left = 0usize;
    let mut right = 0usize;
    while left < 127 {
        assert!(heap.node(2 * left + 1) >= heap.node(left));
        assert!(heap.node(2 * right + 2) <= heap.node(right));
        left = 2 * left + 1;
        right = 2 * right + 2;
    }
    assert_eq!(heap.node(left), 397);
    assert_eq!(heap.node(right), 3);
}

#[test]
fn build_from_zero_leaves_all_zeroes() {
    let heap = built(0);
    assert_eq!(snapshot(&heap), vec![0; 255]);
    assert_eq!(heap.current(), 0);
}

#[test]
fn build_twice_from_the_same_seed_changes_nothing() {
    for rate in [0, 3, 7, 400, 12_345] {
        let mut heap = built(rate);
        let once = snapshot(&heap);
        heap.move_to(17);
        assert!(heap.can_build(rate));
        heap.build();
        assert_eq!(snapshot(&heap), once);
        assert_eq!(heap.current(), 0);
    }
}

#[test]
fn build_is_the_same_for_equal_seeds() {
    assert_eq!(snapshot(&built(400)), snapshot(&built(400)));
    assert_eq!(snapshot(&built(7)), snapshot(&built(7)));
}

#[test]
fn rebuild_keeps_children_whose_right_slot_is_not_zero() {
    // built from 3: the left half holds 2 everywhere, the right half 0
    let mut heap = built(3);
    assert_eq!(heap.node(0), 1);
    assert_eq!(heap.node(1), 2);
    assert_eq!(heap.node(2), 0);
    assert_eq!(heap.node(3), 2);
    assert_eq!(heap.node(4), 2);
    assert_eq!(heap.node(6), 0);

    heap.set_original(1000);
    assert!(heap.can_build(1000));
    heap.build();
    // root and its children are always derived anew
    assert_eq!(heap.node(0), 500);
    assert_eq!(heap.node(1), 750);
    assert_eq!(heap.node(2), 250);
    // below node 1 the right slots held 2: kept
    assert_eq!(heap.node(3), 2);
    assert_eq!(heap.node(4), 2);
    // below node 2 the right slot held 0: derived
    assert_eq!(heap.node(5), 375);
    assert_eq!(heap.node(6), 125);
}

#[test]
fn can_build_refuses_a_negative_seed() {
    let heap = LimitHeap::default();
    assert!(!heap.can_build(-1));
    assert!(heap.can_build(0));
    assert!(heap.can_build(i32::MAX));
}

#[test]
fn can_build_refuses_a_tree_whose_children_would_overflow() {
    let mut heap = LimitHeap::default();
    // node 3 keeps its value because its sibling's slot is not zero
    heap.move_to(4);
    heap.set_value(5);
    heap.move_to(3);
    heap.set_value(i32::MAX);
    // its own right child's slot is zero, so its children would be derived:
    // left = MAX + |300 - MAX| / 2
    assert!(!heap.can_build(400));
    // nothing was changed by asking
    assert_eq!(heap.node(3), i32::MAX);
    assert_eq!(heap.node(0), 0);
    assert_eq!(heap.current(), 3);
    assert_eq!(heap.original(), 0);
}

#[test]
fn can_build_refuses_a_distance_beyond_32_bits() {
    let mut heap = LimitHeap::default();
    heap.move_to(4);
    heap.set_value(5);
    heap.move_to(3);
    heap.set_value(i32::MIN);
    // |parent - node| = 300 - MIN does not fit
    assert!(!heap.can_build(400));
}

#[test]
fn moves_from_the_root() {
    let mut heap = built(400);
    assert_eq!(heap.move_left(), 0);
    assert_eq!(heap.current(), 1);
    assert_eq!(heap.move_right(), 1);
    assert_eq!(heap.current(), 4);
    assert_eq!(heap.value(), 250);
    assert_eq!(heap.move_up(), 4);
    assert_eq!(heap.current(), 1);
    assert_eq!(heap.move_up(), 1);
    assert_eq!(heap.current(), 0);
    assert_eq!(heap.move_up(), 0);
    assert_eq!(heap.current(), 0);
}

#[test]
fn moves_down_from_a_leaf_are_no_ops() {
    let mut heap = built(400);
    for index in [127usize, 128, 200, 253, 254] {
        heap.move_to(index);
        assert!(!heap.has_children());
        assert_eq!(heap.move_left(), index);
        assert_eq!(heap.current(), index);
        assert_eq!(heap.move_right(), index);
        assert_eq!(heap.current(), index);
    }
    heap.move_to(126);
    assert!(heap.has_children());
    assert_eq!(heap.move_right(), 126);
    assert_eq!(heap.current(), 254);
}

#[test]
fn has_parent_is_false_only_at_the_root() {
    let mut heap = LimitHeap::default();
    assert!(!heap.has_parent());
    heap.move_to(1);
    assert!(heap.has_parent());
    heap.move_to(254);
    assert!(heap.has_parent());
}

#[test]
fn parent_value_at_root_is_the_seed() {
    let mut heap = built(400);
    assert_eq!(heap.parent_value(), 400);
    assert_eq!(heap.current(), 0);
    heap.move_to(4);
    assert_eq!(heap.parent_value(), 300);
    assert_eq!(heap.current(), 4);
}

#[test]
fn right_child_value_restores_the_cursor() {
    let mut heap = built(400);
    assert_eq!(heap.right_child_value(), 100);
    assert_eq!(heap.current(), 0);
    // a leaf answers with its own value
    heap.move_to(241);
    assert_eq!(heap.right_child_value(), 41);
    assert_eq!(heap.current(), 241);
}

#[test]
fn set_value_writes_under_the_cursor_only() {
    let mut heap = built(400);
    let before = snapshot(&heap);
    heap.move_to(9);
    heap.set_value(-7);
    assert_eq!(heap.value(), -7);
    let after = snapshot(&heap);
    for index in 0..255usize {
        if index != 9 {
            assert_eq!(after[index], before[index]);
        }
    }
}

#[test]
fn set_children_of_an_inner_node() {
    let mut heap = LimitHeap::default();
    heap.set_original(100);
    heap.set_value(40);
    // parent of the root is the seed: |100 - 40| / 2 = 30
    heap.set_left_child();
    assert_eq!(heap.node(1), 70);
    assert_eq!(heap.current(), 0);
    heap.set_right_child();
    assert_eq!(heap.node(2), 10);
    assert_eq!(heap.current(), 0);
    // a node above its parent: |40 - 70| / 2 = 15
    heap.move_to(1);
    heap.set_left_child();
    heap.set_right_child();
    assert_eq!(heap.node(3), 85);
    assert_eq!(heap.node(4), 55);
    assert_eq!(heap.current(), 1);
}

#[test]
fn set_children_on_a_leaf_overwrites_the_leaf_and_steps_up() {
    let mut heap = built(400);
    heap.move_to(241);
    assert_eq!(heap.parent_value(), 40);
    heap.set_value(50);
    // |40 - 50| / 2 = 5
    heap.set_left_child();
    assert_eq!(heap.current(), 120);
    assert_eq!(heap.node(241), 55);
    assert_eq!(heap.node(120), 40);
    heap.move_to(241);
    // |40 - 55| / 2 = 7
    heap.set_right_child();
    assert_eq!(heap.current(), 120);
    assert_eq!(heap.node(241), 48);
}
