//! The job scheduler of the generated code: a pool of jobs, a min-heap of
//! jobs ordered by due time, and the dispatch of due heartbeat, fragmented
//! get response and stream jobs.
use vstd::prelude::*;
use vstd::string::*;
use crate::config::{Network, Node, ObjectEntry, Stream, TypeSignalEncoding};
use crate::errors::Error;
use crate::options::Options;
use crate::text::{
    concat_str, contains_text, dec, dec_string, hex, hex_string, law_dec_injective, lemma_contains_middle, lemma_prefix_extends,
    spaces, spaces_string,
};

verus! {

/// The interval job definitions of stream `st`, the `k`-th stream.
#[verifier::opaque]
pub open spec fn stream_job_def(st: Stream, k: nat, namespace: Seq<char>, indent: Seq<char>) -> Seq<char> {
    "static job_t "@ + st.name@ + "_interval_job;\nstatic const uint32_t "@ + st.name@ + "_interval = "@ + dec(((st.min_interval_ns / 1_000_000) as u32) as nat) + ";\nstatic void schedule_"@ + st.name@ + "_interval_job(){\n"@ + indent + "uint32_t time = "@ + namespace + "_get_time();\n"@ + indent + st.name@ + "_interval_job.climax = time + "@ + st.name@ + "_interval;\n"@ + indent + st.name@ + "_interval_job.tag = STREAM_INTERVAL_JOB_TAG;\n"@ + indent + st.name@ + "_interval_job.job.stream_interval_job.stream_id = "@ + dec(k) + ";\n"@ + indent + st.name@ + "_interval_job.job.stream_interval_job.last_schedule = time;\n"@ + indent + "scheduler_schedule(&"@ + st.name@ + "_interval_job);\n}\n"@
}

/// The interval job definitions of all streams, numbered from 0.
pub open spec fn stream_job_defs(streams: Seq<Stream>, namespace: Seq<char>, indent: Seq<char>) -> Seq<char>
    decreases streams.len(),
{
    if streams.len() == 0 {
        Seq::empty()
    } else {
        stream_job_defs(streams.drop_last(), namespace, indent) + stream_job_def(streams.last(), (streams.len() - 1) as nat, namespace, indent)
    }
}

/// The statement that copies object entry `o` into attribute `a` of the
/// stream message.
pub open spec fn attrib_assignment(a: TypeSignalEncoding, o: ObjectEntry, indent: Seq<char>) -> Seq<char> {
    ((indent + indent) + (indent + indent)) + "stream_message."@ + a.spec_name() + " = "@ + ("__oe_"@ + o.name@) + ";"@
}

/// The statements that fill the stream message from the mapped object
/// entries, pairing mapping slots and encoding attributes up to the shorter
/// of the two, separated by newlines.
pub open spec fn write_attribs(mapping: Seq<Option<ObjectEntry>>, attrs: Seq<TypeSignalEncoding>, indent: Seq<char>) -> Seq<char>
    decreases mapping.len(),
{
    if mapping.len() == 0 || attrs.len() == 0 {
        Seq::empty()
    } else {
        let n = if mapping.len() < attrs.len() { mapping.len() } else { attrs.len() };
        let head = write_attribs(mapping.take(n - 1), attrs.take(n - 1), indent);
        head + (if n > 1 { "\n"@ } else { Seq::empty() }) + attrib_assignment(attrs[n - 1], mapping[n - 1]->Some_0, indent)
    }
}

/// The dispatch case of stream `st`, the `k`-th stream.
#[verifier::opaque]
pub open spec fn stream_case(st: Stream, k: nat, namespace: Seq<char>, indent: Seq<char>, node_name: Seq<char>) -> Seq<char> {
    let attribs = write_attribs(st.mapping@, st.message.encoding->Some_0.attributes@, indent);
    ((indent + indent) + indent) + "case "@ + dec(k) + ": {\n"@ + ((indent + indent) + (indent + indent)) + "job->job.stream_interval_job.last_schedule = time;\n"@ + ((indent + indent) + (indent + indent)) + "scheduler_reschedule(time + "@ + dec(((st.max_interval_ns / 1_000_000) as u32) as nat) + ");\n"@ + ((indent + indent) + (indent + indent)) + namespace + "_exit_critical();\n"@ + ((indent + indent) + (indent + indent)) + namespace + "_message_"@ + node_name + "_stream_"@ + st.name@ + " stream_message;\n"@ + attribs + "\n"@ + ((indent + indent) + (indent + indent)) + namespace + "_frame stream_frame;\n"@ + ((indent + indent) + (indent + indent)) + namespace + "_serialize_"@ + namespace + "_message_"@ + node_name + "_stream_"@ + st.name@ + "(&stream_message, &stream_frame);\n"@ + ((indent + indent) + (indent + indent)) + namespace + "_"@ + st.message.bus.name@ + "_send(&stream_frame);\n"@ + ((indent + indent) + (indent + indent)) + "break;\n"@ + ((indent + indent) + indent) + "}"@
}

/// The dispatch cases of all streams, separated by newlines.
pub open spec fn stream_cases(streams: Seq<Stream>, namespace: Seq<char>, indent: Seq<char>, node_name: Seq<char>) -> Seq<char>
    decreases streams.len(),
{
    if streams.len() == 0 {
        Seq::empty()
    } else {
        stream_cases(streams.drop_last(), namespace, indent, node_name) + (if streams.len() > 1 { "\n"@ } else { Seq::empty() })
            + stream_case(streams.last(), (streams.len() - 1) as nat, namespace, indent, node_name)
    }
}

/// A stream whose message can be filled: the message has an encoding and
/// every mapping slot paired with an attribute holds an object entry.
pub open spec fn stream_schedulable(st: Stream) -> bool {
    &&& st.message.encoding is Some
    &&& forall|j: int|
        0 <= j < st.mapping@.len() && j < st.message.encoding->Some_0.attributes@.len() ==> (#[trigger] st.mapping@[j]) is Some
}

/// Part 0 of [`scheduler_text`].
pub open spec fn scheduler_text_0(namespace: Seq<char>, indent: Seq<char>, job_defs: Seq<char>, case_logic: Seq<char>, node_name: Seq<char>, heartbeat_bus_name: Seq<char>, get_resp_bus_name: Seq<char>, node_id: u32) -> Seq<char> {
    "\ntypedef enum {\n  HEARTBEAT_JOB_TAG = 0,\n  GET_RESP_FRAGMENTATION_JOB_TAG = 1,\n  STREAM_INTERVAL_JOB_TAG = 2,\n} job_tag;\ntypedef struct {\n  uint32_t *buffer;\n  uint8_t offset;\n  uint8_t size;\n  uint8_t od_index;\n  uint8_t server_id;\n} get_resp_fragmentation_job;\ntypedef struct {\n  uint32_t command_resp_msg_id;\n  uint8_t bus_id;\n} command_resp_timeout_job;\ntypedef struct {\n  uint32_t last_schedule; \n  uint32_t stream_id;\n} stream_interval_job;\ntypedef struct {\n  uint32_t climax;\n  uint32_t position;\n  job_tag tag;\n  union {\n    get_resp_fragmentation_job get_fragmentation_job;\n    stream_interval_job stream_interval_job;\n  } job;\n} job_t;\nunion job_pool_allocator_entry {\n"@ + indent + "job_t job;\n"@ + indent + "union job_pool_allocator_entry *next;\n};\ntypedef struct {\n"@ + indent + "union job_pool_allocator_entry job[64];\n"@ + indent + "union job_pool_allocator_entry *freelist;\n} job_pool_allocator;\nstatic job_pool_allocator job_allocator;\nstatic void job_pool_allocator_init() {\n"@ + indent + "for (uint8_t i = 1; i < 64; i++) {\n"@ + (indent + indent) + "job_allocator.job[i - 1].next = job_allocator.job + i;\n"@ + indent + "}\n"@ + indent + "job_allocator.job[64 - 1].next = NULL;\n"@ + indent + "job_allocator.freelist = job_allocator.job;\n}\nstatic job_t *job_pool_allocator_alloc() {\n"@ + indent + "if (job_allocator.freelist != NULL) {\n"@ + (indent + indent) + "job_t *job = &job_allocator.freelist->job;\n"@ + (indent + indent) + "job_allocator.freelist = job_allocator.freelist->next;\n"@ + (indent + indent) + "return job;\n"@ + indent + "} else {\n"@ + (indent + indent) + "return NULL;\n"@ + indent + "}\n}\nstatic void job_pool_allocator_free(job_t *job) {\n"@ + indent + "union job_pool_allocator_entry *entry = (union job_pool_allocator_entry *)job;\n"@ + indent + "entry->next = job_allocator.freelist;\n"@ + indent + "job_allocator.freelist = entry;\n}\n#define SCHEDULE_HEAP_SIZE 256\ntypedef struct {\n"@ + indent + "job_t *heap[SCHEDULE_HEAP_SIZE]; // job**\n"@ + indent + "uint32_t size;\n} job_scheduler_t;\nstatic job_scheduler_t scheduler;\nstatic void scheduler_promote_job(job_t *job) {\n"@ + indent + "int index = job->position;\n"@
}

/// Part 1 of [`scheduler_text`].
pub open spec fn scheduler_text_1(namespace: Seq<char>, indent: Seq<char>, job_defs: Seq<char>, case_logic: Seq<char>, node_name: Seq<char>, heartbeat_bus_name: Seq<char>, get_resp_bus_name: Seq<char>, node_id: u32) -> Seq<char> {
    indent + "if (index == 0) {\n"@ + (indent + indent) + "return;\n"@ + indent + "}\n"@ + indent + "int parent = (job->position - 1) / 2;\n"@ + indent + "while (scheduler.heap[parent]->climax > scheduler.heap[index]->climax) {\n"@ + (indent + indent) + "job_t *tmp = scheduler.heap[parent];\n"@ + (indent + indent) + "scheduler.heap[parent] = scheduler.heap[index];\n"@ + (indent + indent) + "scheduler.heap[index] = tmp;\n"@ + (indent + indent) + "scheduler.heap[parent]->position = parent;\n"@ + (indent + indent) + "scheduler.heap[index]->position = index;\n"@ + (indent + indent) + "index = parent;\n"@ + (indent + indent) + "parent = (index - 1) / 2;\n"@ + indent + "}\n"@ + indent + "if (index == 0) {\n"@ + (indent + indent) + namespace + "_request_update(job->climax);\n"@ + indent + "}\n}\nstatic void scheduler_schedule(job_t *job) {\n"@ + indent + "if (scheduler.size >= SCHEDULE_HEAP_SIZE) {\n"@ + (indent + indent) + "return;\n"@ + indent + "}\n"@ + indent + "job->position = scheduler.size;\n"@ + indent + "scheduler.heap[scheduler.size] = job;\n"@ + indent + "scheduler.size += 1;\n"@
}

/// Part 2 of [`scheduler_text`].
pub open spec fn scheduler_text_2(namespace: Seq<char>, indent: Seq<char>, job_defs: Seq<char>, case_logic: Seq<char>, node_name: Seq<char>, heartbeat_bus_name: Seq<char>, get_resp_bus_name: Seq<char>, node_id: u32) -> Seq<char> {
    indent + "scheduler_promote_job(job);\n}\nstatic int scheduler_continue(job_t **job, uint32_t time) {\n"@ + indent + "*job = scheduler.heap[0];\n"@ + indent + "return scheduler.heap[0]->climax <= time;\n}\nstatic void scheduler_reschedule(uint32_t climax) {\n"@ + indent + "job_t *job = scheduler.heap[0];\n"@ + indent + "job->climax = climax;\n"@ + indent + "int index = 0;\n"@ + indent + "int hsize = scheduler.size / 2;\n"@ + indent + "while (index < hsize) {\n"@ + (indent + indent) + "int left = index * 2 + 1;\n"@ + (indent + indent) + "int right = left + 1;\n"@ + (indent + indent) + "int min;\n"@ + (indent + indent) + "if (right < scheduler.size &&\n"@ + ((indent + indent) + (indent + indent)) + "scheduler.heap[left]->climax >= scheduler.heap[right]->climax) {\n"@ + ((indent + indent) + indent) + "min = right;\n"@ + (indent + indent) + "} else {\n"@ + (indent + indent) + "min = left;\n"@ + (indent + indent) + "}\n"@ + (indent + indent) + "if (climax <= scheduler.heap[min]->climax) {\n"@ + ((indent + indent) + indent) + "break;\n"@ + (indent + indent) + "}\n"@ + (indent + indent) + "scheduler.heap[index] = scheduler.heap[min];\n"@ + (indent + indent) + "scheduler.heap[index]->position = index;\n"@ + (indent + indent)
}

/// Part 3 of [`scheduler_text`].
pub open spec fn scheduler_text_3(namespace: Seq<char>, indent: Seq<char>, job_defs: Seq<char>, case_logic: Seq<char>, node_name: Seq<char>, heartbeat_bus_name: Seq<char>, get_resp_bus_name: Seq<char>, node_id: u32) -> Seq<char> {
    "index = min;\n"@ + indent + "}\n"@ + indent + "scheduler.heap[index] = job;\n"@ + indent + "scheduler.heap[index]->position = index;\n}\nstatic void scheduler_unschedule() {\n"@ + indent + "scheduler.heap[0] = scheduler.heap[scheduler.size - 1];\n"@ + indent + "scheduler.heap[0]->position = 0;\n"@ + indent + "scheduler.size -= 1;\n"@ + indent + "scheduler_reschedule(scheduler.heap[0]->climax);\n}\nstatic const uint32_t get_resp_fragmentation_interval = 10;\nstatic void schedule_get_resp_fragmentation_job(uint32_t *fragmentation_buffer, uint8_t size, uint8_t od_index, uint8_t server_id) {\n"@ + indent + "job_t *fragmentation_job = job_pool_allocator_alloc();\n"@ + indent + "fragmentation_job->climax = canzero_get_time() + get_resp_fragmentation_interval;\n"@ + indent + "fragmentation_job->tag = GET_RESP_FRAGMENTATION_JOB_TAG;\n"@ + indent + "fragmentation_job->job.get_fragmentation_job.buffer = fragmentation_buffer;\n"@ + indent + "fragmentation_job->job.get_fragmentation_job.offset = 1;\n"@ + indent + "fragmentation_job->job.get_fragmentation_job.size = size;\n"@ + indent + "fragmentation_job->job.get_fragmentation_job.od_index = od_index;\n"@ + indent + "fragmentation_job->job.get_fragmentation_job.server_id = server_id;\n"@ + indent + "scheduler_schedule(fragmentation_job);\n}\nstatic job_t heartbeat_job;\nstatic const uint32_t heartbeat_interval = 100;\nstatic void schedule_heartbeat_job() {\n"@ + indent + "heartbeat_job.climax = canzero_get_time() + heartbeat_interval;\n"@ + indent + "heartbeat_job.tag = HEARTBEAT_JOB_TAG;\n"@ + indent + "scheduler_schedule(&heartbeat_job);\n}\n"@ + job_defs + "\nstatic void schedule_jobs(uint32_t time) {\n"@ + indent + "for (uint8_t i = 0; i < 100; ++i) {\n"@ + (indent + indent) + namespace
}

/// Part 4 of [`scheduler_text`].
pub open spec fn scheduler_text_4(namespace: Seq<char>, indent: Seq<char>, job_defs: Seq<char>, case_logic: Seq<char>, node_name: Seq<char>, heartbeat_bus_name: Seq<char>, get_resp_bus_name: Seq<char>, node_id: u32) -> Seq<char> {
    "_enter_critical();\n"@ + (indent + indent) + "job_t *job;\n"@ + (indent + indent) + "if (!scheduler_continue(&job, time)) {\n"@ + ((indent + indent) + indent) + namespace + "_exit_critical();\n"@ + ((indent + indent) + indent) + "return;\n"@ + (indent + indent) + "}\n"@ + (indent + indent) + "switch (job->tag) {\n"@ + (indent + indent) + "case STREAM_INTERVAL_JOB_TAG: {\n"@ + ((indent + indent) + indent) + "switch (job->job.stream_interval_job.stream_id) {\n"@ + case_logic + "\n"@ + ((indent + indent) + indent) + "default:\n"@ + ((indent + indent) + (indent + indent)) + namespace + "_exit_critical();\n"@ + ((indent + indent) + (indent + indent)) + "break;\n"@ + ((indent + indent) + indent) + "}\n"@ + ((indent + indent) + indent) + "break;\n"@ + (indent + indent) + "}\n"@ + (indent + indent) + "case HEARTBEAT_JOB_TAG: {\n"@ + ((indent + indent) + indent) + "scheduler_reschedule(time + heartbeat_interval);\n"@ + ((indent + indent) + indent) + namespace + "_exit_critical();\n"@ + ((indent + indent) + indent) + namespace + "_message_heartbeat heartbeat;\n"@ + ((indent + indent) + indent) + "heartbeat.node_id = node_id_"@
}

/// Part 5 of [`scheduler_text`].
pub open spec fn scheduler_text_5(namespace: Seq<char>, indent: Seq<char>, job_defs: Seq<char>, case_logic: Seq<char>, node_name: Seq<char>, heartbeat_bus_name: Seq<char>, get_resp_bus_name: Seq<char>, node_id: u32) -> Seq<char> {
    node_name + ";\n"@ + ((indent + indent) + indent) + namespace + "_frame heartbeat_frame;\n"@ + ((indent + indent) + indent) + namespace + "_serialize_"@ + namespace + "_message_heartbeat(&heartbeat, &heartbeat_frame);\n"@ + ((indent + indent) + indent) + namespace + "_"@ + heartbeat_bus_name + "_send(&heartbeat_frame);\n"@ + ((indent + indent) + indent) + "break;\n"@ + (indent + indent) + "}\n"@ + (indent + indent) + "case GET_RESP_FRAGMENTATION_JOB_TAG: {\n"@ + ((indent + indent) + indent) + "get_resp_fragmentation_job *fragmentation_job = &job->job.get_fragmentation_job;\n"@ + ((indent + indent) + indent) + namespace + "_message_get_resp fragmentation_response;\n"@ + ((indent + indent) + indent) + "fragmentation_response.header.sof = 0;\n"@ + ((indent + indent) + indent) + "fragmentation_response.header.toggle = fragmentation_job->offset % 2;\n"@ + ((indent + indent) + indent) + "fragmentation_response.header.od_index = fragmentation_job->od_index;\n"@ + ((indent + indent) + indent) + "fragmentation_response.header.client_id = 0x"@ + hex(node_id as nat) + ";\n"@ + ((indent + indent) + indent) + "fragmentation_response.header.server_id = fragmentation_job->server_id;\n"@ + ((indent + indent) + indent) + "fragmentation_response.data = fragmentation_job->buffer[fragmentation_job->offset];\n"@ + ((indent + indent) + indent) + "fragmentation_job->offset += 1;\n"@ + ((indent + indent) + indent) + "if (fragmentation_job->offset == fragmentation_job->size) {\n"@ + ((indent + indent) + (indent + indent))
}

/// Part 6 of [`scheduler_text`].
pub open spec fn scheduler_text_6(namespace: Seq<char>, indent: Seq<char>, job_defs: Seq<char>, case_logic: Seq<char>, node_name: Seq<char>, heartbeat_bus_name: Seq<char>, get_resp_bus_name: Seq<char>, node_id: u32) -> Seq<char> {
    "fragmentation_response.header.eof = 1;\n"@ + ((indent + indent) + (indent + indent)) + "scheduler_unschedule();\n"@ + ((indent + indent) + indent) + "} else {\n"@ + ((indent + indent) + (indent + indent)) + "fragmentation_response.header.eof = 0;\n"@ + ((indent + indent) + (indent + indent)) + "scheduler_reschedule(time + get_resp_fragmentation_interval);\n"@ + ((indent + indent) + indent) + "}\n"@ + ((indent + indent) + indent) + namespace + "_exit_critical();\n"@ + ((indent + indent) + indent) + "canzero_frame fragmentation_frame;\n"@ + ((indent + indent) + indent) + namespace + "_serialize_"@ + namespace + "_message_get_resp(&fragmentation_response, &fragmentation_frame);\n"@ + ((indent + indent) + indent) + "canzero_"@ + get_resp_bus_name + "_send(&fragmentation_frame);\n"@ + ((indent + indent) + indent) + "break;\n"@ + (indent + indent) + "}\n"@ + (indent + indent) + "default:\n"@ + ((indent + indent) + indent) + namespace + "_exit_critical();\n"@ + ((indent + indent) + indent) + "break;\n"@ + (indent + indent) + "}\n"@ + indent + "}\n}\nstatic uint32_t scheduler_next_job_timeout(){\n"@ + indent + "return scheduler.heap[0]->climax;\n}\n"@
}

/// The job pool, the job scheduler heap, the heartbeat and get response fragmentation jobs, the interval jobs of the streams and the dispatch of due jobs.
pub open spec fn scheduler_text(namespace: Seq<char>, indent: Seq<char>, job_defs: Seq<char>, case_logic: Seq<char>, node_name: Seq<char>, heartbeat_bus_name: Seq<char>, get_resp_bus_name: Seq<char>, node_id: u32) -> Seq<char> {
    scheduler_text_0(namespace, indent, job_defs, case_logic, node_name, heartbeat_bus_name, get_resp_bus_name, node_id) + scheduler_text_1(namespace, indent, job_defs, case_logic, node_name, heartbeat_bus_name, get_resp_bus_name, node_id) + scheduler_text_2(namespace, indent, job_defs, case_logic, node_name, heartbeat_bus_name, get_resp_bus_name, node_id) + scheduler_text_3(namespace, indent, job_defs, case_logic, node_name, heartbeat_bus_name, get_resp_bus_name, node_id) + scheduler_text_4(namespace, indent, job_defs, case_logic, node_name, heartbeat_bus_name, get_resp_bus_name, node_id) + scheduler_text_5(namespace, indent, job_defs, case_logic, node_name, heartbeat_bus_name, get_resp_bus_name, node_id) + scheduler_text_6(namespace, indent, job_defs, case_logic, node_name, heartbeat_bus_name, get_resp_bus_name, node_id)
}

fn scheduler_text_0_exec(namespace_s: &str, indent_s: &str, job_defs_s: &str, case_logic_s: &str, node_name_s: &str, heartbeat_bus_name_s: &str, get_resp_bus_name_s: &str, node_id_s: u32) -> (t: String)
    ensures
        t@ == scheduler_text_0(namespace_s@, indent_s@, job_defs_s@, case_logic_s@, node_name_s@, heartbeat_bus_name_s@, get_resp_bus_name_s@, node_id_s),
{
    let ghost namespace = namespace_s@;
    let ghost indent = indent_s@;
    let ghost job_defs = job_defs_s@;
    let ghost case_logic = case_logic_s@;
    let ghost node_name = node_name_s@;
    let ghost heartbeat_bus_name = heartbeat_bus_name_s@;
    let ghost get_resp_bus_name = get_resp_bus_name_s@;
    let ghost node_id = node_id_s;
    let indent2 = concat_str(indent_s, indent_s);
    let indent3 = concat_str(indent2.as_str(), indent_s);
    let indent4 = concat_str(indent2.as_str(), indent2.as_str());
    let mut t = String::new();
    t.append("\ntypedef enum {\n  HEARTBEAT_JOB_TAG = 0,\n  GET_RESP_FRAGMENTATION_JOB_TAG = 1,\n  STREAM_INTERVAL_JOB_TAG = 2,\n} job_tag;\ntypedef struct {\n  uint32_t *buffer;\n  uint8_t offset;\n  uint8_t size;\n  uint8_t od_index;\n  uint8_t server_id;\n} get_resp_fragmentation_job;\ntypedef struct {\n  uint32_t command_resp_msg_id;\n  uint8_t bus_id;\n} command_resp_timeout_job;\ntypedef struct {\n  uint32_t last_schedule; \n  uint32_t stream_id;\n} stream_interval_job;\ntypedef struct {\n  uint32_t climax;\n  uint32_t position;\n  job_tag tag;\n  union {\n    get_resp_fragmentation_job get_fragmentation_job;\n    stream_interval_job stream_interval_job;\n  } job;\n} job_t;\nunion job_pool_allocator_entry {\n");
    t.append(indent_s);
    t.append("job_t job;\n");
    t.append(indent_s);
    t.append("union job_pool_allocator_entry *next;\n};\ntypedef struct {\n");
    t.append(indent_s);
    t.append("union job_pool_allocator_entry job[64];\n");
    t.append(indent_s);
    t.append("union job_pool_allocator_entry *freelist;\n} job_pool_allocator;\nstatic job_pool_allocator job_allocator;\nstatic void job_pool_allocator_init() {\n");
    t.append(indent_s);
    t.append("for (uint8_t i = 1; i < 64; i++) {\n");
    t.append(indent2.as_str());
    t.append("job_allocator.job[i - 1].next = job_allocator.job + i;\n");
    t.append(indent_s);
    t.append("}\n");
    t.append(indent_s);
    t.append("job_allocator.job[64 - 1].next = NULL;\n");
    t.append(indent_s);
    t.append("job_allocator.freelist = job_allocator.job;\n}\nstatic job_t *job_pool_allocator_alloc() {\n");
    t.append(indent_s);
    t.append("if (job_allocator.freelist != NULL) {\n");
    t.append(indent2.as_str());
    t.append("job_t *job = &job_allocator.freelist->job;\n");
    t.append(indent2.as_str());
    t.append("job_allocator.freelist = job_allocator.freelist->next;\n");
    t.append(indent2.as_str());
    t.append("return job;\n");
    t.append(indent_s);
    t.append("} else {\n");
    t.append(indent2.as_str());
    t.append("return NULL;\n");
    t.append(indent_s);
    t.append("}\n}\nstatic void job_pool_allocator_free(job_t *job) {\n");
    t.append(indent_s);
    t.append("union job_pool_allocator_entry *entry = (union job_pool_allocator_entry *)job;\n");
    t.append(indent_s);
    t.append("entry->next = job_allocator.freelist;\n");
    t.append(indent_s);
    t.append("job_allocator.freelist = entry;\n}\n#define SCHEDULE_HEAP_SIZE 256\ntypedef struct {\n");
    t.append(indent_s);
    t.append("job_t *heap[SCHEDULE_HEAP_SIZE]; // job**\n");
    t.append(indent_s);
    t.append("uint32_t size;\n} job_scheduler_t;\nstatic job_scheduler_t scheduler;\nstatic void scheduler_promote_job(job_t *job) {\n");
    t.append(indent_s);
    t.append("int index = job->position;\n");
    t
}

fn scheduler_text_1_exec(namespace_s: &str, indent_s: &str, job_defs_s: &str, case_logic_s: &str, node_name_s: &str, heartbeat_bus_name_s: &str, get_resp_bus_name_s: &str, node_id_s: u32) -> (t: String)
    ensures
        t@ == scheduler_text_1(namespace_s@, indent_s@, job_defs_s@, case_logic_s@, node_name_s@, heartbeat_bus_name_s@, get_resp_bus_name_s@, node_id_s),
{
    let ghost namespace = namespace_s@;
    let ghost indent = indent_s@;
    let ghost job_defs = job_defs_s@;
    let ghost case_logic = case_logic_s@;
    let ghost node_name = node_name_s@;
    let ghost heartbeat_bus_name = heartbeat_bus_name_s@;
    let ghost get_resp_bus_name = get_resp_bus_name_s@;
    let ghost node_id = node_id_s;
    let indent2 = concat_str(indent_s, indent_s);
    let indent3 = concat_str(indent2.as_str(), indent_s);
    let indent4 = concat_str(indent2.as_str(), indent2.as_str());
    let mut t = String::new();
    t.append(indent_s);
    t.append("if (index == 0) {\n");
    t.append(indent2.as_str());
    t.append("return;\n");
    t.append(indent_s);
    t.append("}\n");
    t.append(indent_s);
    t.append("int parent = (job->position - 1) / 2;\n");
    t.append(indent_s);
    t.append("while (scheduler.heap[parent]->climax > scheduler.heap[index]->climax) {\n");
    t.append(indent2.as_str());
    t.append("job_t *tmp = scheduler.heap[parent];\n");
    t.append(indent2.as_str());
    t.append("scheduler.heap[parent] = scheduler.heap[index];\n");
    t.append(indent2.as_str());
    t.append("scheduler.heap[index] = tmp;\n");
    t.append(indent2.as_str());
    t.append("scheduler.heap[parent]->position = parent;\n");
    t.append(indent2.as_str());
    t.append("scheduler.heap[index]->position = index;\n");
    t.append(indent2.as_str());
    t.append("index = parent;\n");
    t.append(indent2.as_str());
    t.append("parent = (index - 1) / 2;\n");
    t.append(indent_s);
    t.append("}\n");
    t.append(indent_s);
    t.append("if (index == 0) {\n");
    t.append(indent2.as_str());
    t.append(namespace_s);
    t.append("_request_update(job->climax);\n");
    t.append(indent_s);
    t.append("}\n}\nstatic void scheduler_schedule(job_t *job) {\n");
    t.append(indent_s);
    t.append("if (scheduler.size >= SCHEDULE_HEAP_SIZE) {\n");
    t.append(indent2.as_str());
    t.append("return;\n");
    t.append(indent_s);
    t.append("}\n");
    t.append(indent_s);
    t.append("job->position = scheduler.size;\n");
    t.append(indent_s);
    t.append("scheduler.heap[scheduler.size] = job;\n");
    t.append(indent_s);
    t.append("scheduler.size += 1;\n");
    t
}

fn scheduler_text_2_exec(namespace_s: &str, indent_s: &str, job_defs_s: &str, case_logic_s: &str, node_name_s: &str, heartbeat_bus_name_s: &str, get_resp_bus_name_s: &str, node_id_s: u32) -> (t: String)
    ensures
        t@ == scheduler_text_2(namespace_s@, indent_s@, job_defs_s@, case_logic_s@, node_name_s@, heartbeat_bus_name_s@, get_resp_bus_name_s@, node_id_s),
{
    let ghost namespace = namespace_s@;
    let ghost indent = indent_s@;
    let ghost job_defs = job_defs_s@;
    let ghost case_logic = case_logic_s@;
    let ghost node_name = node_name_s@;
    let ghost heartbeat_bus_name = heartbeat_bus_name_s@;
    let ghost get_resp_bus_name = get_resp_bus_name_s@;
    let ghost node_id = node_id_s;
    let indent2 = concat_str(indent_s, indent_s);
    let indent3 = concat_str(indent2.as_str(), indent_s);
    let indent4 = concat_str(indent2.as_str(), indent2.as_str());
    let mut t = String::new();
    t.append(indent_s);
    t.append("scheduler_promote_job(job);\n}\nstatic int scheduler_continue(job_t **job, uint32_t time) {\n");
    t.append(indent_s);
    t.append("*job = scheduler.heap[0];\n");
    t.append(indent_s);
    t.append("return scheduler.heap[0]->climax <= time;\n}\nstatic void scheduler_reschedule(uint32_t climax) {\n");
    t.append(indent_s);
    t.append("job_t *job = scheduler.heap[0];\n");
    t.append(indent_s);
    t.append("job->climax = climax;\n");
    t.append(indent_s);
    t.append("int index = 0;\n");
    t.append(indent_s);
    t.append("int hsize = scheduler.size / 2;\n");
    t.append(indent_s);
    t.append("while (index < hsize) {\n");
    t.append(indent2.as_str());
    t.append("int left = index * 2 + 1;\n");
    t.append(indent2.as_str());
    t.append("int right = left + 1;\n");
    t.append(indent2.as_str());
    t.append("int min;\n");
    t.append(indent2.as_str());
    t.append("if (right < scheduler.size &&\n");
    t.append(indent4.as_str());
    t.append("scheduler.heap[left]->climax >= scheduler.heap[right]->climax) {\n");
    t.append(indent3.as_str());
    t.append("min = right;\n");
    t.append(indent2.as_str());
    t.append("} else {\n");
    t.append(indent2.as_str());
    t.append("min = left;\n");
    t.append(indent2.as_str());
    t.append("}\n");
    t.append(indent2.as_str());
    t.append("if (climax <= scheduler.heap[min]->climax) {\n");
    t.append(indent3.as_str());
    t.append("break;\n");
    t.append(indent2.as_str());
    t.append("}\n");
    t.append(indent2.as_str());
    t.append("scheduler.heap[index] = scheduler.heap[min];\n");
    t.append(indent2.as_str());
    t.append("scheduler.heap[index]->position = index;\n");
    t.append(indent2.as_str());
    t
}

fn scheduler_text_3_exec(namespace_s: &str, indent_s: &str, job_defs_s: &str, case_logic_s: &str, node_name_s: &str, heartbeat_bus_name_s: &str, get_resp_bus_name_s: &str, node_id_s: u32) -> (t: String)
    ensures
        t@ == scheduler_text_3(namespace_s@, indent_s@, job_defs_s@, case_logic_s@, node_name_s@, heartbeat_bus_name_s@, get_resp_bus_name_s@, node_id_s),
{
    let ghost namespace = namespace_s@;
    let ghost indent = indent_s@;
    let ghost job_defs = job_defs_s@;
    let ghost case_logic = case_logic_s@;
    let ghost node_name = node_name_s@;
    let ghost heartbeat_bus_name = heartbeat_bus_name_s@;
    let ghost get_resp_bus_name = get_resp_bus_name_s@;
    let ghost node_id = node_id_s;
    let indent2 = concat_str(indent_s, indent_s);
    let indent3 = concat_str(indent2.as_str(), indent_s);
    let indent4 = concat_str(indent2.as_str(), indent2.as_str());
    let mut t = String::new();
    t.append("index = min;\n");
    t.append(indent_s);
    t.append("}\n");
    t.append(indent_s);
    t.append("scheduler.heap[index] = job;\n");
    t.append(indent_s);
    t.append("scheduler.heap[index]->position = index;\n}\nstatic void scheduler_unschedule() {\n");
    t.append(indent_s);
    t.append("scheduler.heap[0] = scheduler.heap[scheduler.size - 1];\n");
    t.append(indent_s);
    t.append("scheduler.heap[0]->position = 0;\n");
    t.append(indent_s);
    t.append("scheduler.size -= 1;\n");
    t.append(indent_s);
    t.append("scheduler_reschedule(scheduler.heap[0]->climax);\n}\nstatic const uint32_t get_resp_fragmentation_interval = 10;\nstatic void schedule_get_resp_fragmentation_job(uint32_t *fragmentation_buffer, uint8_t size, uint8_t od_index, uint8_t server_id) {\n");
    t.append(indent_s);
    t.append("job_t *fragmentation_job = job_pool_allocator_alloc();\n");
    t.append(indent_s);
    t.append("fragmentation_job->climax = canzero_get_time() + get_resp_fragmentation_interval;\n");
    t.append(indent_s);
    t.append("fragmentation_job->tag = GET_RESP_FRAGMENTATION_JOB_TAG;\n");
    t.append(indent_s);
    t.append("fragmentation_job->job.get_fragmentation_job.buffer = fragmentation_buffer;\n");
    t.append(indent_s);
    t.append("fragmentation_job->job.get_fragmentation_job.offset = 1;\n");
    t.append(indent_s);
    t.append("fragmentation_job->job.get_fragmentation_job.size = size;\n");
    t.append(indent_s);
    t.append("fragmentation_job->job.get_fragmentation_job.od_index = od_index;\n");
    t.append(indent_s);
    t.append("fragmentation_job->job.get_fragmentation_job.server_id = server_id;\n");
    t.append(indent_s);
    t.append("scheduler_schedule(fragmentation_job);\n}\nstatic job_t heartbeat_job;\nstatic const uint32_t heartbeat_interval = 100;\nstatic void schedule_heartbeat_job() {\n");
    t.append(indent_s);
    t.append("heartbeat_job.climax = canzero_get_time() + heartbeat_interval;\n");
    t.append(indent_s);
    t.append("heartbeat_job.tag = HEARTBEAT_JOB_TAG;\n");
    t.append(indent_s);
    t.append("scheduler_schedule(&heartbeat_job);\n}\n");
    t.append(job_defs_s);
    t.append("\nstatic void schedule_jobs(uint32_t time) {\n");
    t.append(indent_s);
    t.append("for (uint8_t i = 0; i < 100; ++i) {\n");
    t.append(indent2.as_str());
    t.append(namespace_s);
    t
}

fn scheduler_text_4_exec(namespace_s: &str, indent_s: &str, job_defs_s: &str, case_logic_s: &str, node_name_s: &str, heartbeat_bus_name_s: &str, get_resp_bus_name_s: &str, node_id_s: u32) -> (t: String)
    ensures
        t@ == scheduler_text_4(namespace_s@, indent_s@, job_defs_s@, case_logic_s@, node_name_s@, heartbeat_bus_name_s@, get_resp_bus_name_s@, node_id_s),
{
    let ghost namespace = namespace_s@;
    let ghost indent = indent_s@;
    let ghost job_defs = job_defs_s@;
    let ghost case_logic = case_logic_s@;
    let ghost node_name = node_name_s@;
    let ghost heartbeat_bus_name = heartbeat_bus_name_s@;
    let ghost get_resp_bus_name = get_resp_bus_name_s@;
    let ghost node_id = node_id_s;
    let indent2 = concat_str(indent_s, indent_s);
    let indent3 = concat_str(indent2.as_str(), indent_s);
    let indent4 = concat_str(indent2.as_str(), indent2.as_str());
    let mut t = String::new();
    t.append("_enter_critical();\n");
    t.append(indent2.as_str());
    t.append("job_t *job;\n");
    t.append(indent2.as_str());
    t.append("if (!scheduler_continue(&job, time)) {\n");
    t.append(indent3.as_str());
    t.append(namespace_s);
    t.append("_exit_critical();\n");
    t.append(indent3.as_str());
    t.append("return;\n");
    t.append(indent2.as_str());
    t.append("}\n");
    t.append(indent2.as_str());
    t.append("switch (job->tag) {\n");
    t.append(indent2.as_str());
    t.append("case STREAM_INTERVAL_JOB_TAG: {\n");
    t.append(indent3.as_str());
    t.append("switch (job->job.stream_interval_job.stream_id) {\n");
    t.append(case_logic_s);
    t.append("\n");
    t.append(indent3.as_str());
    t.append("default:\n");
    t.append(indent4.as_str());
    t.append(namespace_s);
    t.append("_exit_critical();\n");
    t.append(indent4.as_str());
    t.append("break;\n");
    t.append(indent3.as_str());
    t.append("}\n");
    t.append(indent3.as_str());
    t.append("break;\n");
    t.append(indent2.as_str());
    t.append("}\n");
    t.append(indent2.as_str());
    t.append("case HEARTBEAT_JOB_TAG: {\n");
    t.append(indent3.as_str());
    t.append("scheduler_reschedule(time + heartbeat_interval);\n");
    t.append(indent3.as_str());
    t.append(namespace_s);
    t.append("_exit_critical();\n");
    t.append(indent3.as_str());
    t.append(namespace_s);
    t.append("_message_heartbeat heartbeat;\n");
    t.append(indent3.as_str());
    t.append("heartbeat.node_id = node_id_");
    t
}

fn scheduler_text_5_exec(namespace_s: &str, indent_s: &str, job_defs_s: &str, case_logic_s: &str, node_name_s: &str, heartbeat_bus_name_s: &str, get_resp_bus_name_s: &str, node_id_s: u32) -> (t: String)
    ensures
        t@ == scheduler_text_5(namespace_s@, indent_s@, job_defs_s@, case_logic_s@, node_name_s@, heartbeat_bus_name_s@, get_resp_bus_name_s@, node_id_s),
{
    let ghost namespace = namespace_s@;
    let ghost indent = indent_s@;
    let ghost job_defs = job_defs_s@;
    let ghost case_logic = case_logic_s@;
    let ghost node_name = node_name_s@;
    let ghost heartbeat_bus_name = heartbeat_bus_name_s@;
    let ghost get_resp_bus_name = get_resp_bus_name_s@;
    let ghost node_id = node_id_s;
    let indent2 = concat_str(indent_s, indent_s);
    let indent3 = concat_str(indent2.as_str(), indent_s);
    let indent4 = concat_str(indent2.as_str(), indent2.as_str());
    let mut t = String::new();
    t.append(node_name_s);
    t.append(";\n");
    t.append(indent3.as_str());
    t.append(namespace_s);
    t.append("_frame heartbeat_frame;\n");
    t.append(indent3.as_str());
    t.append(namespace_s);
    t.append("_serialize_");
    t.append(namespace_s);
    t.append("_message_heartbeat(&heartbeat, &heartbeat_frame);\n");
    t.append(indent3.as_str());
    t.append(namespace_s);
    t.append("_");
    t.append(heartbeat_bus_name_s);
    t.append("_send(&heartbeat_frame);\n");
    t.append(indent3.as_str());
    t.append("break;\n");
    t.append(indent2.as_str());
    t.append("}\n");
    t.append(indent2.as_str());
    t.append("case GET_RESP_FRAGMENTATION_JOB_TAG: {\n");
    t.append(indent3.as_str());
    t.append("get_resp_fragmentation_job *fragmentation_job = &job->job.get_fragmentation_job;\n");
    t.append(indent3.as_str());
    t.append(namespace_s);
    t.append("_message_get_resp fragmentation_response;\n");
    t.append(indent3.as_str());
    t.append("fragmentation_response.header.sof = 0;\n");
    t.append(indent3.as_str());
    t.append("fragmentation_response.header.toggle = fragmentation_job->offset % 2;\n");
    t.append(indent3.as_str());
    t.append("fragmentation_response.header.od_index = fragmentation_job->od_index;\n");
    t.append(indent3.as_str());
    t.append("fragmentation_response.header.client_id = 0x");
    t.append(hex_string(node_id_s as u64).as_str());
    t.append(";\n");
    t.append(indent3.as_str());
    t.append("fragmentation_response.header.server_id = fragmentation_job->server_id;\n");
    t.append(indent3.as_str());
    t.append("fragmentation_response.data = fragmentation_job->buffer[fragmentation_job->offset];\n");
    t.append(indent3.as_str());
    t.append("fragmentation_job->offset += 1;\n");
    t.append(indent3.as_str());
    t.append("if (fragmentation_job->offset == fragmentation_job->size) {\n");
    t.append(indent4.as_str());
    t
}

fn scheduler_text_6_exec(namespace_s: &str, indent_s: &str, job_defs_s: &str, case_logic_s: &str, node_name_s: &str, heartbeat_bus_name_s: &str, get_resp_bus_name_s: &str, node_id_s: u32) -> (t: String)
    ensures
        t@ == scheduler_text_6(namespace_s@, indent_s@, job_defs_s@, case_logic_s@, node_name_s@, heartbeat_bus_name_s@, get_resp_bus_name_s@, node_id_s),
{
    let ghost namespace = namespace_s@;
    let ghost indent = indent_s@;
    let ghost job_defs = job_defs_s@;
    let ghost case_logic = case_logic_s@;
    let ghost node_name = node_name_s@;
    let ghost heartbeat_bus_name = heartbeat_bus_name_s@;
    let ghost get_resp_bus_name = get_resp_bus_name_s@;
    let ghost node_id = node_id_s;
    let indent2 = concat_str(indent_s, indent_s);
    let indent3 = concat_str(indent2.as_str(), indent_s);
    let indent4 = concat_str(indent2.as_str(), indent2.as_str());
    let mut t = String::new();
    t.append("fragmentation_response.header.eof = 1;\n");
    t.append(indent4.as_str());
    t.append("scheduler_unschedule();\n");
    t.append(indent3.as_str());
    t.append("} else {\n");
    t.append(indent4.as_str());
    t.append("fragmentation_response.header.eof = 0;\n");
    t.append(indent4.as_str());
    t.append("scheduler_reschedule(time + get_resp_fragmentation_interval);\n");
    t.append(indent3.as_str());
    t.append("}\n");
    t.append(indent3.as_str());
    t.append(namespace_s);
    t.append("_exit_critical();\n");
    t.append(indent3.as_str());
    t.append("canzero_frame fragmentation_frame;\n");
    t.append(indent3.as_str());
    t.append(namespace_s);
    t.append("_serialize_");
    t.append(namespace_s);
    t.append("_message_get_resp(&fragmentation_response, &fragmentation_frame);\n");
    t.append(indent3.as_str());
    t.append("canzero_");
    t.append(get_resp_bus_name_s);
    t.append("_send(&fragmentation_frame);\n");
    t.append(indent3.as_str());
    t.append("break;\n");
    t.append(indent2.as_str());
    t.append("}\n");
    t.append(indent2.as_str());
    t.append("default:\n");
    t.append(indent3.as_str());
    t.append(namespace_s);
    t.append("_exit_critical();\n");
    t.append(indent3.as_str());
    t.append("break;\n");
    t.append(indent2.as_str());
    t.append("}\n");
    t.append(indent_s);
    t.append("}\n}\nstatic uint32_t scheduler_next_job_timeout(){\n");
    t.append(indent_s);
    t.append("return scheduler.heap[0]->climax;\n}\n");
    t
}

fn scheduler_text_exec(namespace_s: &str, indent_s: &str, job_defs_s: &str, case_logic_s: &str, node_name_s: &str, heartbeat_bus_name_s: &str, get_resp_bus_name_s: &str, node_id_s: u32) -> (t: String)
    ensures
        t@ == scheduler_text(namespace_s@, indent_s@, job_defs_s@, case_logic_s@, node_name_s@, heartbeat_bus_name_s@, get_resp_bus_name_s@, node_id_s),
{
    let mut t = String::new();
    t.append(scheduler_text_0_exec(namespace_s, indent_s, job_defs_s, case_logic_s, node_name_s, heartbeat_bus_name_s, get_resp_bus_name_s, node_id_s).as_str());
    t.append(scheduler_text_1_exec(namespace_s, indent_s, job_defs_s, case_logic_s, node_name_s, heartbeat_bus_name_s, get_resp_bus_name_s, node_id_s).as_str());
    t.append(scheduler_text_2_exec(namespace_s, indent_s, job_defs_s, case_logic_s, node_name_s, heartbeat_bus_name_s, get_resp_bus_name_s, node_id_s).as_str());
    t.append(scheduler_text_3_exec(namespace_s, indent_s, job_defs_s, case_logic_s, node_name_s, heartbeat_bus_name_s, get_resp_bus_name_s, node_id_s).as_str());
    t.append(scheduler_text_4_exec(namespace_s, indent_s, job_defs_s, case_logic_s, node_name_s, heartbeat_bus_name_s, get_resp_bus_name_s, node_id_s).as_str());
    t.append(scheduler_text_5_exec(namespace_s, indent_s, job_defs_s, case_logic_s, node_name_s, heartbeat_bus_name_s, get_resp_bus_name_s, node_id_s).as_str());
    t.append(scheduler_text_6_exec(namespace_s, indent_s, job_defs_s, case_logic_s, node_name_s, heartbeat_bus_name_s, get_resp_bus_name_s, node_id_s).as_str());
    assert(t@ =~= scheduler_text(namespace_s@, indent_s@, job_defs_s@, case_logic_s@, node_name_s@, heartbeat_bus_name_s@, get_resp_bus_name_s@, node_id_s));
    t
}

fn stream_job_def_exec(st: &Stream, k: usize, namespace_s: &str, indent_s: &str) -> (t: String)
    ensures
        t@ == stream_job_def(*st, k as nat, namespace_s@, indent_s@),
{
    let ghost namespace = namespace_s@;
    let ghost indent = indent_s@;
    let mut t = String::new();
    t.append("static job_t ");
    t.append(st.name.as_str());
    t.append("_interval_job;\nstatic const uint32_t ");
    t.append(st.name.as_str());
    t.append("_interval = ");
    t.append(dec_string(((st.min_interval_ns / 1_000_000) as u32) as u64).as_str());
    t.append(";\nstatic void schedule_");
    t.append(st.name.as_str());
    t.append("_interval_job(){\n");
    t.append(indent_s);
    t.append("uint32_t time = ");
    t.append(namespace_s);
    t.append("_get_time();\n");
    t.append(indent_s);
    t.append(st.name.as_str());
    t.append("_interval_job.climax = time + ");
    t.append(st.name.as_str());
    t.append("_interval;\n");
    t.append(indent_s);
    t.append(st.name.as_str());
    t.append("_interval_job.tag = STREAM_INTERVAL_JOB_TAG;\n");
    t.append(indent_s);
    t.append(st.name.as_str());
    t.append("_interval_job.job.stream_interval_job.stream_id = ");
    t.append(dec_string(k as u64).as_str());
    t.append(";\n");
    t.append(indent_s);
    t.append(st.name.as_str());
    t.append("_interval_job.job.stream_interval_job.last_schedule = time;\n");
    t.append(indent_s);
    t.append("scheduler_schedule(&");
    t.append(st.name.as_str());
    t.append("_interval_job);\n}\n");
    proof {
        reveal(stream_job_def);
    }
    t
}

fn write_attribs_exec(mapping: &Vec<Option<ObjectEntry>>, attrs: &Vec<TypeSignalEncoding>, indent_s: &str) -> (t: String)
    requires
        forall|j: int| 0 <= j < mapping@.len() && j < attrs@.len() ==> (#[trigger] mapping@[j]) is Some,
    ensures
        t@ == write_attribs(mapping@, attrs@, indent_s@),
{
    let ghost indent = indent_s@;
    let indent2 = concat_str(indent_s, indent_s);
    let indent4 = concat_str(indent2.as_str(), indent2.as_str());
    let mut t = String::new();
    let mut j: usize = 0;
    let n = if mapping.len() < attrs.len() { mapping.len() } else { attrs.len() };
    assert(t@ =~= write_attribs(mapping@.take(0), attrs@.take(0), indent));
    while j < n
        invariant
            j <= n,
            n == if mapping.len() < attrs.len() { mapping.len() } else { attrs.len() },
            indent == indent_s@,
            indent4@ == (indent + indent) + (indent + indent),
            forall|q: int| 0 <= q < mapping@.len() && q < attrs@.len() ==> (#[trigger] mapping@[q]) is Some,
            t@ == write_attribs(mapping@.take(j as int), attrs@.take(j as int), indent),
        decreases n - j,
    {
        let ghost before = t@;
        if j > 0 {
            t.append("\n");
        }
        match &mapping[j] {
            Some(o) => {
                let oe_var = concat_str("__oe_", o.name.as_str());
                let ghost a = attrs@[j as int];
            t.append(indent4.as_str());
            t.append("stream_message.");
            t.append(attrs[j].name());
            t.append(" = ");
            t.append(oe_var.as_str());
            t.append(";");
            },
            None => {
                assert(false);
            },
        }
        proof {
            let m1 = mapping@.take(j + 1);
            let a1 = attrs@.take(j + 1);
            assert(m1.take(j as int) =~= mapping@.take(j as int));
            assert(a1.take(j as int) =~= attrs@.take(j as int));
            assert(m1[j as int] == mapping@[j as int]);
            assert(a1[j as int] == attrs@[j as int]);
            assert(t@ =~= write_attribs(m1, a1, indent));
        }
        j = j + 1;
    }
    proof {
        if mapping.len() <= attrs.len() {
            assert(mapping@.take(n as int) =~= mapping@);
            lemma_write_attribs_trim(mapping@, attrs@, indent);
        } else {
            assert(attrs@.take(n as int) =~= attrs@);
            lemma_write_attribs_trim(mapping@, attrs@, indent);
        }
    }
    t
}

/// Only the paired prefix of mapping and attributes matters.
proof fn lemma_write_attribs_trim(mapping: Seq<Option<ObjectEntry>>, attrs: Seq<TypeSignalEncoding>, indent: Seq<char>)
    ensures
        ({
            let n = if mapping.len() < attrs.len() { mapping.len() } else { attrs.len() };
            write_attribs(mapping, attrs, indent) == write_attribs(mapping.take(n as int), attrs.take(n as int), indent)
        }),
{
    let n = if mapping.len() < attrs.len() { mapping.len() } else { attrs.len() };
    let m = mapping.take(n as int);
    let a = attrs.take(n as int);
    if n > 0 {
        assert(m.take(n - 1) =~= mapping.take(n - 1));
        assert(a.take(n - 1) =~= attrs.take(n - 1));
    }
}

fn stream_case_exec(st: &Stream, k: usize, namespace_s: &str, indent_s: &str, node_name_s: &str) -> (t: String)
    requires
        stream_schedulable(*st),
    ensures
        t@ == stream_case(*st, k as nat, namespace_s@, indent_s@, node_name_s@),
{
    let ghost namespace = namespace_s@;
    let ghost indent = indent_s@;
    let ghost node_name = node_name_s@;
    let indent2 = concat_str(indent_s, indent_s);
    let indent3 = concat_str(indent2.as_str(), indent_s);
    let indent4 = concat_str(indent2.as_str(), indent2.as_str());
    let attribs_s = match &st.message.encoding {
        Some(encoding) => write_attribs_exec(&st.mapping, &encoding.attributes, indent_s),
        None => {
            assert(false);
            String::new()
        },
    };
    let ghost attribs = attribs_s@;
    let mut t = String::new();
    t.append(indent3.as_str());
    t.append("case ");
    t.append(dec_string(k as u64).as_str());
    t.append(": {\n");
    t.append(indent4.as_str());
    t.append("job->job.stream_interval_job.last_schedule = time;\n");
    t.append(indent4.as_str());
    t.append("scheduler_reschedule(time + ");
    t.append(dec_string(((st.max_interval_ns / 1_000_000) as u32) as u64).as_str());
    t.append(");\n");
    t.append(indent4.as_str());
    t.append(namespace_s);
    t.append("_exit_critical();\n");
    t.append(indent4.as_str());
    t.append(namespace_s);
    t.append("_message_");
    t.append(node_name_s);
    t.append("_stream_");
    t.append(st.name.as_str());
    t.append(" stream_message;\n");
    t.append(attribs_s.as_str());
    t.append("\n");
    t.append(indent4.as_str());
    t.append(namespace_s);
    t.append("_frame stream_frame;\n");
    t.append(indent4.as_str());
    t.append(namespace_s);
    t.append("_serialize_");
    t.append(namespace_s);
    t.append("_message_");
    t.append(node_name_s);
    t.append("_stream_");
    t.append(st.name.as_str());
    t.append("(&stream_message, &stream_frame);\n");
    t.append(indent4.as_str());
    t.append(namespace_s);
    t.append("_");
    t.append(st.message.bus.name.as_str());
    t.append("_send(&stream_frame);\n");
    t.append(indent4.as_str());
    t.append("break;\n");
    t.append(indent3.as_str());
    t.append("}");
    proof {
        reveal(stream_case);
    }
    t
}

/// Appends the scheduler to `source`: the job pool and heap, the job kinds,
/// the interval job of each transmitted stream and the dispatch of due jobs.
pub fn generate_scheduler(
    network_config: &Network,
    node_config: &Node,
    source: &mut String,
    header: &mut String,
    options: &Options,
) -> (r: Result<(), Error>)
    requires
        node_config.tx_streams@.len() <= 0x7fff_ffff,
        forall|i: int| 0 <= i < node_config.tx_streams@.len() ==> stream_schedulable(#[trigger] node_config.tx_streams@[i]),
    ensures
        r is Ok,
        final(header)@ == old(header)@,
        final(source)@ == old(source)@ + scheduler_text(
            options@.namespace,
            spaces(options@.indent),
            stream_job_defs(node_config.tx_streams@, options@.namespace, spaces(options@.indent)),
            stream_cases(node_config.tx_streams@, options@.namespace, spaces(options@.indent), node_config.name@),
            node_config.name@,
            network_config.heartbeat_message.bus.name@,
            network_config.get_resp_message.bus.name@,
            node_config.id,
        ),
{
    let namespace_s = options.namespace();
    let indent_str = spaces_string(options.indent());
    let indent_s = indent_str.as_str();
    let ghost namespace = namespace_s@;
    let ghost indent = indent_s@;
    let node_name_s = node_config.name.as_str();
    let streams = &node_config.tx_streams;
    let mut job_defs = String::new();
    let mut case_logic = String::new();
    let mut k: usize = 0;
    assert(streams@.take(0) =~= Seq::<Stream>::empty());
    while k < streams.len()
        invariant
            k <= streams.len(),
            namespace == namespace_s@,
            indent == indent_s@,
            forall|i: int| 0 <= i < streams@.len() ==> stream_schedulable(#[trigger] streams@[i]),
            job_defs@ == stream_job_defs(streams@.take(k as int), namespace, indent),
            case_logic@ == stream_cases(streams@.take(k as int), namespace, indent, node_name_s@),
        decreases streams.len() - k,
    {
        let ghost jd = job_defs@;
        let ghost cl = case_logic@;
        if k > 0 {
            case_logic.append("\n");
        }
        job_defs.append(stream_job_def_exec(&streams[k], k, namespace_s, indent_s).as_str());
        case_logic.append(stream_case_exec(&streams[k], k, namespace_s, indent_s, node_name_s).as_str());
        assert(streams@.take(k + 1).drop_last() =~= streams@.take(k as int));
        assert(job_defs@ =~= stream_job_defs(streams@.take(k + 1), namespace, indent));
        assert(case_logic@ =~= stream_cases(streams@.take(k + 1), namespace, indent, node_name_s@));
        k = k + 1;
    }
    assert(streams@.take(streams.len() as int) =~= streams@);
    let job_defs_s = job_defs.as_str();
    let case_logic_s = case_logic.as_str();
    let heartbeat_bus_name_s = network_config.heartbeat_message.bus.name.as_str();
    let get_resp_bus_name_s = network_config.get_resp_message.bus.name.as_str();
    let node_id_s = node_config.id;
    let text = scheduler_text_exec(namespace_s, indent_s, job_defs_s, case_logic_s, node_name_s, heartbeat_bus_name_s, get_resp_bus_name_s, node_id_s);
    source.append(text.as_str());
    Ok(())
}

/// The interval job of the `k`-th stream carries stream id `k`, and the
/// dispatch case of the `k`-th stream is case `k`; jobs of distinct streams
/// carry distinct ids.
pub proof fn law_stream_job_id(st: Stream, k: nat, other: nat, namespace: Seq<char>, indent: Seq<char>, node_name: Seq<char>)
    ensures
        contains_text(
            stream_job_def(st, k, namespace, indent),
            indent + st.name@ + "_interval_job.job.stream_interval_job.stream_id = "@ + dec(k) + ";\n"@,
        ),
        (((indent + indent) + indent) + "case "@ + dec(k) + ": {\n"@).is_prefix_of(
            stream_case(st, k, namespace, indent, node_name),
        ),
        other != k ==> dec(other) != dec(k),
{
    reveal(stream_job_def);
    reveal(stream_case);
    let t = indent + st.name@ + "_interval_job.job.stream_interval_job.stream_id = "@ + dec(k) + ";\n"@;
    let p = "static job_t "@ + st.name@ + "_interval_job;\nstatic const uint32_t "@ + st.name@ + "_interval = "@ + dec(
        ((st.min_interval_ns / 1_000_000) as u32) as nat,
    ) + ";\nstatic void schedule_"@ + st.name@ + "_interval_job(){\n"@ + indent + "uint32_t time = "@ + namespace
        + "_get_time();\n"@ + indent + st.name@ + "_interval_job.climax = time + "@ + st.name@ + "_interval;\n"@ + indent
        + st.name@ + "_interval_job.tag = STREAM_INTERVAL_JOB_TAG;\n"@;
    let q = indent + st.name@ + "_interval_job.job.stream_interval_job.last_schedule = time;\n"@ + indent
        + "scheduler_schedule(&"@ + st.name@ + "_interval_job);\n}\n"@;
    assert(stream_job_def(st, k, namespace, indent) =~= p + t + q);
    lemma_contains_middle(p, t, q);
    let c = ((indent + indent) + indent) + "case "@ + dec(k) + ": {\n"@;
    let sc = stream_case(st, k, namespace, indent, node_name);
    assert(sc.subrange(0, c.len() as int) =~= c);
    if other != k && dec(other) == dec(k) {
        law_dec_injective(other, k);
    }
}

proof fn lemma_job_defs_prefix(streams: Seq<Stream>, k: int, namespace: Seq<char>, indent: Seq<char>)
    requires
        0 <= k < streams.len(),
    ensures
        (stream_job_defs(streams.take(k), namespace, indent) + stream_job_def(streams[k], k as nat, namespace, indent)).is_prefix_of(
            stream_job_defs(streams, namespace, indent),
        ),
    decreases streams.len(),
{
    assert(streams.take(k + 1).drop_last() =~= streams.take(k));
    if k == streams.len() - 1 {
        assert(streams.drop_last() =~= streams.take(k));
    } else {
        lemma_job_defs_prefix(streams.drop_last(), k, namespace, indent);
        assert(streams.drop_last().take(k) =~= streams.take(k));
        lemma_prefix_extends(
            stream_job_defs(streams.take(k), namespace, indent) + stream_job_def(streams[k], k as nat, namespace, indent),
            stream_job_defs(streams.drop_last(), namespace, indent),
            stream_job_def(streams.last(), (streams.len() - 1) as nat, namespace, indent),
        );
    }
}

proof fn lemma_cases_prefix(streams: Seq<Stream>, k: int, namespace: Seq<char>, indent: Seq<char>, node_name: Seq<char>)
    requires
        0 <= k < streams.len(),
    ensures
        (stream_cases(streams.take(k), namespace, indent, node_name) + (if k > 0 {
            "\n"@
        } else {
            Seq::empty()
        }) + stream_case(streams[k], k as nat, namespace, indent, node_name)).is_prefix_of(
            stream_cases(streams, namespace, indent, node_name),
        ),
    decreases streams.len(),
{
    assert(streams.take(k + 1).drop_last() =~= streams.take(k));
    if k == streams.len() - 1 {
        assert(streams.drop_last() =~= streams.take(k));
    } else {
        lemma_cases_prefix(streams.drop_last(), k, namespace, indent, node_name);
        assert(streams.drop_last().take(k) =~= streams.take(k));
        lemma_prefix_extends(
            stream_cases(streams.take(k), namespace, indent, node_name) + (if k > 0 {
                "\n"@
            } else {
                Seq::empty()
            }) + stream_case(streams[k], k as nat, namespace, indent, node_name),
            stream_cases(streams.drop_last(), namespace, indent, node_name),
            (if streams.len() > 1 {
                "\n"@
            } else {
                Seq::empty()
            }) + stream_case(streams.last(), (streams.len() - 1) as nat, namespace, indent, node_name),
        );
        assert(stream_cases(streams, namespace, indent, node_name) =~= stream_cases(
            streams.drop_last(),
            namespace,
            indent,
            node_name,
        ) + ((if streams.len() > 1 {
            "\n"@
        } else {
            Seq::empty()
        }) + stream_case(streams.last(), (streams.len() - 1) as nat, namespace, indent, node_name)));
    }
}

/// Streams are numbered by their position: the job definitions of all
/// streams begin with those of the first `k` streams followed by the job of
/// stream `k`, numbered `k`; the dispatch cases begin likewise with case `k`
/// for stream `k`.
pub proof fn law_stream_jobs_numbered(streams: Seq<Stream>, namespace: Seq<char>, indent: Seq<char>, node_name: Seq<char>)
    ensures
        forall|k: int|
            0 <= k < streams.len() ==> (stream_job_defs(streams.take(k), namespace, indent) + stream_job_def(
                #[trigger] streams[k],
                k as nat,
                namespace,
                indent,
            )).is_prefix_of(stream_job_defs(streams, namespace, indent)),
        forall|k: int|
            0 <= k < streams.len() ==> (stream_cases(streams.take(k), namespace, indent, node_name) + (if k > 0 {
                "\n"@
            } else {
                Seq::empty()
            }) + stream_case(#[trigger] streams[k], k as nat, namespace, indent, node_name)).is_prefix_of(
                stream_cases(streams, namespace, indent, node_name),
            ),
{
    assert forall|k: int| 0 <= k < streams.len() implies (stream_job_defs(streams.take(k), namespace, indent) + stream_job_def(
        #[trigger] streams[k],
        k as nat,
        namespace,
        indent,
    )).is_prefix_of(stream_job_defs(streams, namespace, indent)) by {
        lemma_job_defs_prefix(streams, k, namespace, indent);
    }
    assert forall|k: int| 0 <= k < streams.len() implies (stream_cases(streams.take(k), namespace, indent, node_name) + (if k
        > 0 {
        "\n"@
    } else {
        Seq::empty()
    }) + stream_case(#[trigger] streams[k], k as nat, namespace, indent, node_name)).is_prefix_of(
        stream_cases(streams, namespace, indent, node_name),
    ) by {
        lemma_cases_prefix(streams, k, namespace, indent, node_name);
    }
}

} // verus!
