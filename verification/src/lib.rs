//! Generation of the C code of one node of a CAN network: the types, object
//! entries, message (de)serialization, receive queue, polling and frame
//! definitions of a header and a source file.
use vstd::prelude::*;
use crate::can_frame::{can_frame_block, generate_can_frame};
use crate::config::{Network, Node};
use crate::errors::Error;
use crate::file_buffer::{
    FileBuffer, FileView, add_block_spec, add_blocks_spec, apply_plan, law_add_block_keeps_file, law_add_blocks_keeps_file,
    law_apply_plan_keeps_files, render_spec,
};
use crate::messages::{generate_messages, messages_blocks, messages_check, messages_reach_ok, unique_messages};
use crate::object_entries::{entries_check, entries_reach_ok, generate_object_entries, object_entries_plan};
use crate::options::{Options, OptionsView};
use crate::poll::{generate_poll, poll_plan};
use crate::rx_queue::{generate_rx_queue, rx_queue_plan};
use crate::text::{spaces, spaces_string};
use crate::types::{generate_types, types_blocks, types_check, types_reach_ok};

pub mod config;
pub mod errors;
pub mod file_buffer;
pub mod messages;
pub mod options;
pub mod source_block;
pub mod text;
pub mod types;
pub mod can_frame;
pub mod rx_queue;
pub mod update;
pub mod pil;
pub mod object_entries;
pub mod can_module_hooks;
pub mod poll;
pub mod setup;
pub mod setters;
pub mod extern_c_guard;
pub mod scheduler;
pub mod rx_handlers;

verus! {

/// The first node of `nodes` named `name`.
pub open spec fn find_node(nodes: Seq<Node>, name: Seq<char>) -> Option<Node>
    decreases nodes.len(),
{
    if nodes.len() == 0 {
        None
    } else if nodes[0].name@ == name {
        Some(nodes[0])
    } else {
        find_node(nodes.drop_first(), name)
    }
}

/// An empty file at `path`.
pub open spec fn empty_file(path: Seq<char>) -> FileView {
    FileView { blocks: Seq::empty(), path, includes: Seq::empty() }
}

/// Generation of `node` with `options` reaches no part it cannot generate:
/// each type it reaches is a struct without array attributes or an enum;
/// each object entry it reaches, the types having been added, is no array;
/// and each message block it reaches, the object entries having been added
/// too, can be generated. Generation stops at the first block refused.
pub open spec fn node_generatable(node: Node, options: OptionsView) -> bool {
    let ns = options.namespace;
    let ind = spaces(options.indent);
    let tx = node.tx_messages@;
    let rx = node.rx_messages@;
    let h0 = empty_file(options.header_file_path);
    let s0 = empty_file(options.source_file_path);
    let (h1, r1) = add_blocks_spec(h0, types_blocks(node.types@, ind));
    let (h2, s2, r2) = apply_plan(h1, s0, object_entries_plan(node.object_entries@, ns, ind));
    &&& types_reach_ok(h0, node.types@, ind)
    &&& (r1 is Ok ==> entries_reach_ok(h1, s0, node.object_entries@, ns, ind))
    &&& (r1 is Ok && r2 is Ok ==> messages_reach_ok(s2, unique_messages(tx, rx), tx, rx, ind))
}

/// The header and source file of `node` and the outcome of generating them:
/// the types go to the header; the object entries, messages, receive queue,
/// polling and frame definitions follow, stopping at the first error; at
/// the end the source includes the header.
pub open spec fn generation(node: Node, options: OptionsView) -> (FileView, FileView, Result<(), Error>) {
    let ns = options.namespace;
    let ind = spaces(options.indent);
    let tx = node.tx_messages@;
    let rx = node.rx_messages@;
    let (h1, r1) = add_blocks_spec(empty_file(options.header_file_path), types_blocks(node.types@, ind));
    let s0 = empty_file(options.source_file_path);
    if r1 is Err {
        (h1, s0, r1)
    } else {
        let (h2, s2, r2) = apply_plan(h1, s0, object_entries_plan(node.object_entries@, ns, ind));
        if r2 is Err {
            (h2, s2, r2)
        } else {
            let (s3, r3) = add_blocks_spec(s2, messages_blocks(unique_messages(tx, rx), tx, rx, ind));
            if r3 is Err {
                (h2, s3, r3)
            } else {
                let (h4, s4, r4) = apply_plan(h2, s3, rx_queue_plan(ns));
                if r4 is Err {
                    (h4, s4, r4)
                } else {
                    let (h5, s5, r5) = apply_plan(h4, s4, poll_plan(tx, ns, ind));
                    if r5 is Err {
                        (h5, s5, r5)
                    } else {
                        let (h6, r6) = add_block_spec(h5, can_frame_block(ns, ind));
                        if r6 is Err {
                            (h6, s5, r6)
                        } else {
                            (h6, FileView { includes: s5.includes.push(h6.path), ..s5 }, Ok(()))
                        }
                    }
                }
            }
        }
    }
}

/// The text of the header file: guarded by `CANZERO_H`.
pub open spec fn header_text(h: FileView) -> Seq<char> {
    render_spec(h, Some("CANZERO_H"@))
}

/// The text of the source file: unguarded.
pub open spec fn source_text(s: FileView) -> Seq<char> {
    render_spec(s, None)
}

/// The index of the first node of `nodes` named `name`, if any.
fn find_node_index(nodes: &Vec<Node>, name: &str) -> (r: Option<usize>)
    ensures
        r is None ==> find_node(nodes@, name@) is None,
        r matches Some(i) ==> i < nodes@.len() && find_node(nodes@, name@) == Some(nodes@[i as int]),
{
    let wanted = name.to_owned();
    let mut i: usize = 0;
    assert(nodes@.subrange(0, nodes@.len() as int) =~= nodes@);
    while i < nodes.len()
        invariant
            i <= nodes.len(),
            wanted@ == name@,
            find_node(nodes@, name@) == find_node(nodes@.subrange(i as int, nodes@.len() as int), name@),
        decreases nodes.len() - i,
    {
        if nodes[i].name == wanted {
            return Some(i);
        }
        assert(nodes@.subrange(i as int, nodes@.len() as int).drop_first() =~= nodes@.subrange(i + 1, nodes@.len() as int));
        i = i + 1;
    }
    assert(nodes@.subrange(i as int, nodes@.len() as int) =~= Seq::<Node>::empty());
    None
}

/// Whether [`generate`] may be called for `node_name`: no node carries the
/// name, or generating the first node that does reaches no part that cannot
/// be generated (see [`node_generatable`]).
pub fn generatable(node_name: &str, network_config: &Network, options: &Options) -> (b: bool)
    ensures
        b == (find_node(network_config.nodes@, node_name@) matches Some(n) ==> node_generatable(n, options@)),
{
    match find_node_index(&network_config.nodes, node_name) {
        None => true,
        Some(i) => {
            let node = &network_config.nodes[i];
            let indent = spaces_string(options.indent());
            let mut header = FileBuffer::new(options.header_file_path());
            let mut source = FileBuffer::new(options.source_file_path());
            match types_check(&node.types, &mut header, &indent) {
                None => {
                    return false;
                },
                Some(Err(_)) => {
                    return true;
                },
                Some(Ok(())) => {},
            }
            match entries_check(&node.object_entries, &mut header, &mut source, options.namespace(), &indent) {
                None => {
                    return false;
                },
                Some(Err(_)) => {
                    return true;
                },
                Some(Ok(())) => {},
            }
            messages_check(&node.tx_messages, &node.rx_messages, &mut source, &indent).is_some()
        },
    }
}

/// Generates the header and source file of node `node_name` of the network
/// and returns their texts, header first; they belong at the paths that
/// `options` names.
pub fn generate(node_name: &str, network_config: &Network, options: Options) -> (r: Result<(String, String), Error>)
    requires
        find_node(network_config.nodes@, node_name@) matches Some(n) ==> node_generatable(n, options@),
    ensures
        find_node(network_config.nodes@, node_name@) is None ==> r == Err::<(String, String), Error>(
            Error::InvalidNodeName,
        ),
        find_node(network_config.nodes@, node_name@) matches Some(n) ==> {
            let (h, s, res) = generation(n, options@);
            &&& res is Err ==> r == Err::<(String, String), Error>(res->Err_0)
            &&& res is Ok ==> (r matches Ok((header, source)) && header@ == header_text(h) && source@ == source_text(s))
        },
{
    let i = match find_node_index(&network_config.nodes, node_name) {
        Some(i) => i,
        None => {
            return Err(Error::InvalidNodeName);
        },
    };
    let node_config = &network_config.nodes[i];
    let mut src = FileBuffer::new(options.source_file_path());
    let mut header = FileBuffer::new(options.header_file_path());
    let r = generate_types(node_config, &mut header, &options);
    if let Err(e) = r {
        return Err(e);
    }
    let r = generate_object_entries(&node_config.object_entries, &mut header, &mut src, &options);
    if let Err(e) = r {
        return Err(e);
    }
    let r = generate_messages(&node_config.tx_messages, &node_config.rx_messages, &mut header, &mut src, &options);
    if let Err(e) = r {
        return Err(e);
    }
    let r = generate_rx_queue(&mut header, &mut src, &options);
    if let Err(e) = r {
        return Err(e);
    }
    let r = generate_poll(node_config, &mut header, &mut src, &options);
    if let Err(e) = r {
        return Err(e);
    }
    let r = generate_can_frame(&mut header, &mut src, &options);
    if let Err(e) = r {
        return Err(e);
    }
    src.include_file_buffer(&header);
    let header_text = header.render(Some("CANZERO_H".to_owned()));
    let source_text = src.render(None);
    Ok((header_text, source_text))
}

/// A node is found exactly when some node carries the name; the node found
/// is the first that does.
pub proof fn law_find_node(nodes: Seq<Node>, name: Seq<char>)
    ensures
        find_node(nodes, name) is None <==> forall|i: int| 0 <= i < nodes.len() ==> (#[trigger] nodes[i]).name@ != name,
        find_node(nodes, name) matches Some(n) ==> exists|i: int|
            0 <= i < nodes.len() && #[trigger] nodes[i] == n && n.name@ == name
                && forall|k: int| 0 <= k < i ==> (#[trigger] nodes[k]).name@ != name,
    decreases nodes.len(),
{
    if nodes.len() > 0 {
        law_find_node(nodes.drop_first(), name);
        assert forall|i: int| 0 < i < nodes.len() implies nodes[i] == (#[trigger] nodes.drop_first()[i - 1]) by {}
        if nodes[0].name@ != name {
            if find_node(nodes, name) is None {
                assert forall|i: int| 0 <= i < nodes.len() implies (#[trigger] nodes[i]).name@ != name by {
                    if i > 0 {
                        assert(nodes.drop_first()[i - 1] == nodes[i]);
                    }
                }
            } else {
                let n = find_node(nodes, name)->Some_0;
                let j = choose|j: int|
                    0 <= j < nodes.drop_first().len() && #[trigger] nodes.drop_first()[j] == n && n.name@ == name
                        && forall|k: int| 0 <= k < j ==> (#[trigger] nodes.drop_first()[k]).name@ != name;
                assert(nodes[j + 1] == n);
                assert forall|k: int| 0 <= k < j + 1 implies (#[trigger] nodes[k]).name@ != name by {
                    if k > 0 {
                        assert(nodes.drop_first()[k - 1] == nodes[k]);
                    }
                }
            }
        } else {
            assert(nodes[0] == find_node(nodes, name)->Some_0);
        }
    }
}

/// Both generated files keep distinct block identifiers; the header lies at
/// the header path and includes nothing, the source lies at the source path
/// and, when generation succeeds, includes exactly the header.
pub proof fn law_generation_files(node: Node, options: OptionsView)
    ensures
        generation(node, options).0.wf(),
        generation(node, options).1.wf(),
        generation(node, options).0.path == options.header_file_path,
        generation(node, options).1.path == options.source_file_path,
        generation(node, options).0.includes == Seq::<Seq<char>>::empty(),
        generation(node, options).2 is Ok ==> generation(node, options).1.includes == seq![options.header_file_path],
        generation(node, options).2 is Err ==> generation(node, options).1.includes == Seq::<Seq<char>>::empty(),
{
    let ns = options.namespace;
    let ind = spaces(options.indent);
    let tx = node.tx_messages@;
    let rx = node.rx_messages@;
    let h0 = empty_file(options.header_file_path);
    let s0 = empty_file(options.source_file_path);
    assert(h0.wf());
    assert(s0.wf());
    law_add_blocks_keeps_file(h0, types_blocks(node.types@, ind));
    let (h1, r1) = add_blocks_spec(h0, types_blocks(node.types@, ind));
    law_apply_plan_keeps_files(h1, s0, object_entries_plan(node.object_entries@, ns, ind));
    let (h2, s2, r2) = apply_plan(h1, s0, object_entries_plan(node.object_entries@, ns, ind));
    law_add_blocks_keeps_file(s2, messages_blocks(unique_messages(tx, rx), tx, rx, ind));
    let (s3, r3) = add_blocks_spec(s2, messages_blocks(unique_messages(tx, rx), tx, rx, ind));
    law_apply_plan_keeps_files(h2, s3, rx_queue_plan(ns));
    let (h4, s4, r4) = apply_plan(h2, s3, rx_queue_plan(ns));
    law_apply_plan_keeps_files(h4, s4, poll_plan(tx, ns, ind));
    let (h5, s5, r5) = apply_plan(h4, s4, poll_plan(tx, ns, ind));
    law_add_block_keeps_file(h5, can_frame_block(ns, ind));
    let (h6, r6) = add_block_spec(h5, can_frame_block(ns, ind));
    if r1 is Ok && r2 is Ok && r3 is Ok && r4 is Ok && r5 is Ok && r6 is Ok {
        let s6 = FileView { includes: s5.includes.push(h6.path), ..s5 };
        assert(s6.includes =~= seq![options.header_file_path]);
        assert(s6.wf());
    }
}

} // verus!
