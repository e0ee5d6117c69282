use anthem::api::off_topic_deliberately_return_error;
use anthem::api::off_topic_memory_test_input_array;
use anthem::api::off_topic_memory_test_input_complex_struct;
use anthem::api::off_topic_memory_test_input_vec_of_object;
use anthem::api::off_topic_memory_test_output_complex_struct;
use anthem::api::off_topic_memory_test_output_vec_of_object;
use anthem::api::off_topic_memory_test_output_vec_u8;
use anthem::api::passing_complex_structs;
use anthem::api::ApiError;
use anthem::api::MousePos;
use anthem::api::Size;
use anthem::api::TreeNode;
use anthem::engine_bridge::frame;
use anthem::engine_bridge::length_header;
use anthem::engine_bridge::read_length;
use anthem::engine_bridge::unframe;
use anthem::engine_model::message::Reply;
use anthem::engine_model::message::ReplyWrapper;
use anthem::engine_model::message::Request;
use anthem::engine_model::message::RequestWrapper;
use anthem::model::project::Project;

fn leaf(name: &str) -> TreeNode {
    TreeNode { name: name.to_string(), children: Vec::new() }
}

#[test]
fn length_header_is_big_endian() {
    assert_eq!(length_header(0), vec![0, 0, 0, 0, 0, 0, 0, 0]);
    assert_eq!(length_header(5), vec![0, 0, 0, 0, 0, 0, 0, 5]);
    assert_eq!(length_header(256), vec![0, 0, 0, 0, 0, 0, 1, 0]);
    assert_eq!(length_header(0x0102_0304), vec![0, 0, 0, 0, 1, 2, 3, 4]);
    for len in [0usize, 1, 255, 256, 65535, 65536, 0xdead_beef, usize::MAX] {
        assert_eq!(length_header(len), (len as u64).to_be_bytes().to_vec());
    }
}

#[test]
fn read_length_inverts_length_header() {
    for len in [0usize, 1, 255, 256, 65535, 65536, 0xdead_beef, usize::MAX] {
        assert_eq!(read_length(&length_header(len)), Some(len));
    }
    assert_eq!(read_length(&vec![0, 0, 0, 0, 0, 0, 2, 1]), Some(513));
    assert_eq!(read_length(&vec![1, 0, 0, 0, 0, 0, 0, 0]), Some(1usize << 56));
    assert_eq!(read_length(&vec![0, 0, 0, 0, 0, 0, 1]), None);
    assert_eq!(read_length(&vec![0, 0, 0, 0, 0, 0, 0, 0, 1]), None);
    assert_eq!(read_length(&Vec::new()), None);
}

#[test]
fn frame_puts_the_header_before_the_message() {
    assert_eq!(frame(&Vec::new()), vec![0, 0, 0, 0, 0, 0, 0, 0]);
    assert_eq!(frame(&vec![7, 8, 9]), vec![0, 0, 0, 0, 0, 0, 0, 3, 7, 8, 9]);
    let long: Vec<u8> = (0..300).map(|i| (i % 251) as u8).collect();
    let framed = frame(&long);
    assert_eq!(framed.len(), 308);
    assert_eq!(&framed[..8], &[0, 0, 0, 0, 0, 0, 1, 44]);
    assert_eq!(&framed[8..], &long[..]);
}

#[test]
fn unframe_inverts_frame_and_turns_down_what_is_no_frame() {
    assert_eq!(unframe(&frame(&vec![7, 8, 9])), Some(vec![7, 8, 9]));
    assert_eq!(unframe(&frame(&Vec::new())), Some(Vec::new()));
    assert_eq!(unframe(&vec![0, 0, 0, 0, 0, 0, 0, 3, 7, 8]), None);
    assert_eq!(unframe(&vec![0, 0, 0, 0, 0, 0, 0, 3, 7, 8, 9, 10]), None);
    assert_eq!(unframe(&vec![0, 0, 0, 0, 0, 0, 0]), None);
    assert_eq!(unframe(&vec![3, 0, 0, 0, 0, 0, 0, 0, 7, 8, 9]), None);
    assert_eq!(unframe(&Vec::new()), None);
}

#[test]
fn wrappers_keep_what_they_are_given() {
    let request = RequestWrapper::new(7, Request::GetModel);
    assert_eq!(request.id, 7);
    assert_eq!(request.request, Request::GetModel);
    let request = RequestWrapper::new(8, Request::LoadModel(Project::with_ids(1, 2)));
    assert_eq!(request.request, Request::LoadModel(Project::with_ids(1, 2)));
    let wrapped = RequestWrapper::wrap(Request::Exit).expect("the system gives random bits");
    assert_eq!(wrapped.request, Request::Exit);
    let reply = ReplyWrapper::new(7, None);
    assert_eq!(reply, ReplyWrapper { id: 7, reply: None });
    let reply = ReplyWrapper::new(9, Some(Reply::GetModelReply(Project::with_ids(1, 2))));
    assert_eq!(reply.id, 9);
    assert_eq!(reply.reply, Some(Reply::GetModelReply(Project::with_ids(1, 2))));
}

#[test]
fn input_lengths_are_cut_to_32_bits() {
    assert_eq!(off_topic_memory_test_input_array(Vec::new()), Ok(0));
    assert_eq!(off_topic_memory_test_input_array(vec![1, 2, 3]), Ok(3));
    let sizes = vec![Size { width: 1, height: 2 }, Size { width: 3, height: 4 }];
    assert_eq!(off_topic_memory_test_input_vec_of_object(sizes), Ok(2));
    let tree = TreeNode { name: "root".to_string(), children: vec![leaf("a"), leaf("b"), leaf("c")] };
    assert_eq!(off_topic_memory_test_input_complex_struct(tree), Ok(3));
    assert_eq!(off_topic_memory_test_input_complex_struct(leaf("alone")), Ok(0));
}

#[test]
fn outputs_have_the_asked_length() {
    assert_eq!(off_topic_memory_test_output_vec_u8(0), Ok(Vec::new()));
    assert_eq!(off_topic_memory_test_output_vec_u8(4), Ok(vec![0, 0, 0, 0]));
    assert_eq!(off_topic_memory_test_output_vec_of_object(0), Ok(Vec::new()));
    assert_eq!(
        off_topic_memory_test_output_vec_of_object(2),
        Ok(vec![Size { width: 42, height: 42 }, Size { width: 42, height: 42 }])
    );
    assert_eq!(off_topic_memory_test_output_complex_struct(0), Ok(leaf("root")));
    assert_eq!(
        off_topic_memory_test_output_complex_struct(2),
        Ok(TreeNode { name: "root".to_string(), children: vec![leaf("child"), leaf("child")] })
    );
}

#[test]
fn passing_complex_structs_shows_the_tree() {
    let tree = TreeNode { name: "root".to_string(), children: vec![leaf("kid")] };
    assert_eq!(
        passing_complex_structs(tree),
        Ok("Hi this string is from Rust. I received a complex struct: TreeNode { name: \"root\", children: [TreeNode { name: \"kid\", children: [] }] }".to_string())
    );
}

#[test]
fn deliberate_error_is_an_error() {
    assert_eq!(off_topic_deliberately_return_error(), Err(ApiError::Deliberate));
}

#[test]
fn mouse_pos_holds_its_coordinates() {
    let pos = MousePos { x: -3, y: 7 };
    assert_eq!((pos.x, pos.y), (-3, 7));
}
