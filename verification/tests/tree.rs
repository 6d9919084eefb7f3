use todomvc::tree_builder::{
    build_tree, EntityTreeExt, IntoTree, IntoTreeIterator, IteratorAdapter, Tree, TreeIterator,
};

#[test]
fn leaf_has_no_links() {
    let t = Tree::new_leaf(7);
    assert_eq!(t.id, 7);
    assert!(t.links.is_empty());
}

#[test]
fn tree_of_leaves_links_each_to_the_root_in_order() {
    let t = Tree::new(1, vec![Tree::new_leaf(2), Tree::new_leaf(3), Tree::new_leaf(4)]);
    assert_eq!(t.id, 1);
    assert_eq!(t.links, vec![(1, 2), (1, 3), (1, 4)]);
}

#[test]
fn tree_without_branches_is_a_leaf() {
    let t = Tree::new(9, Vec::new());
    assert_eq!(t, Tree::new_leaf(9));
}

#[test]
fn nested_trees_are_flattened_depth_first() {
    let app_main = 0usize;
    let app_title = 1usize;
    let todo_main = 2usize;
    let todo_input_container = 3usize;
    let todo_list = 4usize;
    let todo_footer = 5usize;
    let todo_items_left = 6usize;
    let all_btn = 7usize;
    let all_txt = 8usize;
    let t = app_main.tree((
        app_title,
        todo_main.tree((
            todo_input_container,
            todo_list,
            todo_footer.tree((todo_items_left, all_btn.tree(all_txt))),
        )),
    ));
    assert_eq!(t.id, 0);
    assert_eq!(
        t.links,
        vec![(0, 1), (0, 2), (2, 3), (2, 4), (2, 5), (5, 6), (5, 7), (7, 8)]
    );
}

#[test]
fn into_tree_of_a_handle_is_a_leaf() {
    assert_eq!(5usize.into_tree(), Tree::new_leaf(5));
}

#[test]
fn into_tree_of_a_tree_is_itself() {
    let t = Tree::new(1, vec![Tree::new_leaf(2)]);
    let u = Tree::new(1, vec![Tree::new_leaf(2)]).into_tree();
    assert_eq!(t, u);
}

#[test]
fn build_hands_out_the_links_in_order() {
    let links = 1usize.tree((2usize.tree(3usize), 4usize)).build();
    assert_eq!(links, vec![(1, 2), (2, 3), (1, 4)]);
}

#[test]
fn children_may_be_one_handle_one_tree_or_waiting_trees() {
    assert_eq!(1usize.tree(2usize).links, vec![(1, 2)]);
    assert_eq!(1usize.tree(2usize.tree(3usize)).links, vec![(1, 2), (2, 3)]);
    assert_eq!(1usize.tree(vec![2usize.l(), 3usize.l()].c()).links, vec![(1, 2), (1, 3)]);
    assert_eq!(1usize.tree(()).links, vec![]);
    assert_eq!(build_tree(1, (2usize,)).links, vec![(1, 2)]);
}

#[test]
fn a_tuple_of_sixteen_children_keeps_its_order() {
    let t = 0usize.tree((
        1usize,
        2usize,
        3usize,
        4usize,
        5usize.tree(50usize),
        6usize,
        7usize,
        8usize,
        9usize,
        10usize,
        11usize,
        12usize,
        13usize,
        14usize,
        15usize,
        16usize.l(),
    ));
    let mut expected: Vec<(usize, usize)> = Vec::new();
    for child in 1..=16usize {
        expected.push((0, child));
        if child == 5 {
            expected.push((5, 50));
        }
    }
    assert_eq!(t.links, expected);
}

#[test]
fn tree_iterator_hands_out_its_trees_front_first() {
    let mut it = (1usize, 2usize.tree(3usize)).into_tree_iter();
    assert_eq!(it.trees.len(), 2);
    assert_eq!(it.next(), Some(Tree::new_leaf(1)));
    assert_eq!(it.next(), Some(Tree::new(2, vec![Tree::new_leaf(3)])));
    assert_eq!(it.next(), None);
    assert_eq!(it, TreeIterator::new(Vec::new()));
}
