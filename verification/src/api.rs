//! The calls that the front end makes besides its requests to the store:
//! plain values in, plain values out.

use vstd::prelude::*;
use vstd::string::StringExecFns;

verus! {

/// Why a call of the front end failed.
#[derive(Clone, Copy, Debug, PartialEq, Eq, Structural)]
pub enum ApiError {
    /// The call fails on purpose, to show the front end an error.
    Deliberate,
}

/// A place of the mouse pointer on the screen.
#[derive(Clone, Copy, Debug, PartialEq, Eq, Structural)]
pub struct MousePos {
    pub x: i32,
    pub y: i32,
}

#[derive(Clone, Copy, Debug, PartialEq, Eq, Structural)]
pub struct Size {
    pub width: i32,
    pub height: i32,
}

#[derive(Debug, PartialEq, Eq)]
pub struct TreeNode {
    pub name: String,
    pub children: Vec<TreeNode>,
}

/// What a tree is to the contracts.
pub ghost struct TreeNodeView {
    pub name: Seq<char>,
    pub children: Seq<TreeNodeView>,
}

/// A list of trees, each as its view.
pub open spec fn tree_views(trees: Seq<TreeNode>) -> Seq<TreeNodeView>
    decreases trees,
{
    Seq::new(
        trees.len(),
        |i: int|
            if 0 <= i < trees.len() {
                trees[i]@
            } else {
                arbitrary()
            },
    )
}

impl View for TreeNode {
    type V = TreeNodeView;

    open spec fn view(&self) -> TreeNodeView
        decreases self,
    {
        TreeNodeView { name: self.name@, children: tree_views(self.children@) }
    }
}

/// The tree without children that every child of `sample_tree` is.
pub open spec fn sample_child() -> TreeNodeView {
    TreeNodeView { name: "child"@, children: Seq::empty() }
}

/// The tree named `root` with `len` children, each a `sample_child`.
pub open spec fn sample_tree(len: nat) -> TreeNodeView {
    TreeNodeView { name: "root"@, children: Seq::new(len, |i: int| sample_child()) }
}

/// The words that `passing_complex_structs` puts before the tree.
pub open spec fn greeting() -> Seq<char> {
    "Hi this string is from Rust. I received a complex struct: "@
}

/// What `format!` with `{:?}` writes for a tree: the text of the derived
/// `Debug` of `TreeNode`, which depends on nothing but the names in the tree
/// and how they are nested.
pub uninterp spec fn debug_text_of(tree: TreeNodeView) -> Seq<char>;

/// `format!` with `{:?}` on a tree: the text that the derived `Debug` of the
/// tree writes. The contract names the text `debug_text_of` of the tree and
/// claims nothing else of it.
#[verifier::external_body]
fn debug_text(root: &TreeNode) -> (text: String)
    ensures
        text@ == debug_text_of(root@),
{
    format!("{:?}", root)
}

/// Greets the front end and shows it the tree it sent, as `Debug` writes it.
pub fn passing_complex_structs(root: TreeNode) -> (r: Result<String, ApiError>)
    ensures
        r.is_ok(),
        r.unwrap()@ == greeting() + debug_text_of(root@),
{
    let mut text = String::from_str("Hi this string is from Rust. I received a complex struct: ");
    let shown = debug_text(&root);
    text.append(shown.as_str());
    Ok(text)
}

/// The length of the array, cut to 32 bits.
pub fn off_topic_memory_test_input_array(input: Vec<u8>) -> (r: Result<i32, ApiError>)
    ensures
        r == Ok::<i32, ApiError>(input.len() as i32),
{
    Ok(#[verifier::truncate] (input.len() as i32))
}

/// A vector of `len` zero bytes.
pub fn off_topic_memory_test_output_vec_u8(len: i32) -> (r: Result<Vec<u8>, ApiError>)
    requires
        len >= 0,
    ensures
        r.is_ok(),
        r.unwrap()@ == Seq::new(len as nat, |i: int| 0u8),
{
    let mut bytes: Vec<u8> = Vec::new();
    let mut i: i32 = 0;
    while i < len
        invariant
            0 <= i <= len,
            bytes@ == Seq::new(i as nat, |j: int| 0u8),
        decreases len - i,
    {
        bytes.push(0u8);
        i = i + 1;
        assert(bytes@ =~= Seq::new(i as nat, |j: int| 0u8));
    }
    Ok(bytes)
}

/// The number of sizes in the vector, cut to 32 bits.
pub fn off_topic_memory_test_input_vec_of_object(input: Vec<Size>) -> (r: Result<i32, ApiError>)
    ensures
        r == Ok::<i32, ApiError>(input.len() as i32),
{
    Ok(#[verifier::truncate] (input.len() as i32))
}

/// A vector of `len` sizes, each 42 by 42.
pub fn off_topic_memory_test_output_vec_of_object(len: i32) -> (r: Result<Vec<Size>, ApiError>)
    requires
        len >= 0,
    ensures
        r.is_ok(),
        r.unwrap()@ == Seq::new(len as nat, |i: int| Size { width: 42, height: 42 }),
{
    let item = Size { width: 42, height: 42 };
    let mut sizes: Vec<Size> = Vec::new();
    let mut i: i32 = 0;
    while i < len
        invariant
            0 <= i <= len,
            item == (Size { width: 42, height: 42 }),
            sizes@ == Seq::new(i as nat, |j: int| Size { width: 42, height: 42 }),
        decreases len - i,
    {
        sizes.push(item);
        i = i + 1;
        assert(sizes@ =~= Seq::new(i as nat, |j: int| Size { width: 42, height: 42 }));
    }
    Ok(sizes)
}

/// The number of children of the tree, cut to 32 bits.
pub fn off_topic_memory_test_input_complex_struct(input: TreeNode) -> (r: Result<i32, ApiError>)
    ensures
        r == Ok::<i32, ApiError>(input.children.len() as i32),
{
    Ok(#[verifier::truncate] (input.children.len() as i32))
}

/// The tree named `root` with `len` children named `child`.
pub fn off_topic_memory_test_output_complex_struct(len: i32) -> (r: Result<TreeNode, ApiError>)
    requires
        len >= 0,
    ensures
        r.is_ok(),
        r.unwrap()@ == sample_tree(len as nat),
{
    let mut children: Vec<TreeNode> = Vec::new();
    let mut i: i32 = 0;
    while i < len
        invariant
            0 <= i <= len,
            children@.len() == i,
            tree_views(children@) == Seq::new(i as nat, |j: int| sample_child()),
        decreases len - i,
    {
        let child = TreeNode { name: String::from_str("child"), children: Vec::new() };
        assert(child@.children =~= Seq::<TreeNodeView>::empty());
        assert(child@ == sample_child());
        let ghost before = children@;
        children.push(child);
        i = i + 1;
        assert forall|j: int| 0 <= j < i implies tree_views(children@)[j] == sample_child() by {
            if j < i - 1 {
                assert(children@[j] == before[j]);
                assert(tree_views(before)[j] == sample_child());
            }
        }
        assert(tree_views(children@) =~= Seq::new(i as nat, |j: int| sample_child()));
    }
    Ok(TreeNode { name: String::from_str("root"), children })
}

/// Fails, to show the front end an error.
pub fn off_topic_deliberately_return_error() -> (r: Result<i32, ApiError>)
    ensures
        r == Err::<i32, ApiError>(ApiError::Deliberate),
{
    Err(ApiError::Deliberate)
}

} // verus!
