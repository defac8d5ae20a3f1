//! The tasks the runner executes: read tasks (class scans) and non-read
//! command tasks, each able to format its request given a sequence number.
//! Object payload decoding belongs to the task's caller; the engine hands
//! payload regions through untouched.

use vstd::prelude::*;
use crate::control::{Control, ResponseHeader, FUNCTION_READ};

verus! {

/// Object group of the class-data variations.
pub const GROUP_CLASS_DATA: u8 = 0x3c;

/// Qualifier code requesting all objects of a variation.
pub const QUALIFIER_ALL_OBJECTS: u8 = 0x06;

/// A scan of the outstation's event and static data classes.
#[derive(Copy, Clone, PartialEq, Eq, Structural, Debug)]
pub struct ClassScan {
    /// Scan class 1 events.
    pub class1: bool,
    /// Scan class 2 events.
    pub class2: bool,
    /// Scan class 3 events.
    pub class3: bool,
    /// Scan class 0 static data.
    pub class0: bool,
}

/// The three-byte all-objects request header for one class-data variation.
pub open spec fn class_header_data(variation: u8) -> Seq<u8> {
    seq![GROUP_CLASS_DATA, variation, QUALIFIER_ALL_OBJECTS]
}

impl ClassScan {
    /// A scan of class 1 events only.
    pub fn class1() -> (r: Self)
        ensures
            r == (ClassScan { class1: true, class2: false, class3: false, class0: false }),
    {
        ClassScan { class1: true, class2: false, class3: false, class0: false }
    }

    pub fn new(class1: bool, class2: bool, class3: bool, class0: bool) -> (r: Self)
        ensures
            r == (ClassScan { class1, class2, class3, class0 }),
    {
        ClassScan { class1, class2, class3, class0 }
    }

    /// The object headers the scan requests: one all-objects header per
    /// selected class, event classes first.
    pub open spec fn objects_spec(self) -> Seq<u8> {
        (if self.class1 { class_header_data(2) } else { Seq::empty() })
            + (if self.class2 { class_header_data(3) } else { Seq::empty() })
            + (if self.class3 { class_header_data(4) } else { Seq::empty() })
            + (if self.class0 { class_header_data(1) } else { Seq::empty() })
    }

    /// Appends the scan's object headers to the request being formatted.
    pub fn write(&self, out: &mut Vec<u8>)
        ensures
            final(out)@ == old(out)@ + self.objects_spec(),
    {
        if self.class1 {
            out.push(GROUP_CLASS_DATA);
            out.push(2);
            out.push(QUALIFIER_ALL_OBJECTS);
        }
        if self.class2 {
            out.push(GROUP_CLASS_DATA);
            out.push(3);
            out.push(QUALIFIER_ALL_OBJECTS);
        }
        if self.class3 {
            out.push(GROUP_CLASS_DATA);
            out.push(4);
            out.push(QUALIFIER_ALL_OBJECTS);
        }
        if self.class0 {
            out.push(GROUP_CLASS_DATA);
            out.push(1);
            out.push(QUALIFIER_ALL_OBJECTS);
        }
        proof {
            assert(out@ =~= old(out)@ + self.objects_spec());
        }
    }
}

/// The request a read task sends.
#[derive(Copy, Clone, PartialEq, Eq, Structural, Debug)]
pub enum ReadRequest {
    /// A class-data scan.
    ClassScan(ClassScan),
}

impl ReadRequest {
    pub fn class_scan(scan: ClassScan) -> (r: Self)
        ensures
            r == ReadRequest::ClassScan(scan),
    {
        ReadRequest::ClassScan(scan)
    }

    /// The object headers of the request.
    pub open spec fn objects_spec(self) -> Seq<u8> {
        match self {
            ReadRequest::ClassScan(scan) => scan.objects_spec(),
        }
    }

    /// Appends the request's object headers to the request being formatted.
    pub fn format(&self, out: &mut Vec<u8>)
        ensures
            final(out)@ == old(out)@ + self.objects_spec(),
    {
        match self {
            ReadRequest::ClassScan(scan) => scan.write(out),
        }
    }
}

/// Continuation status a task reports after consuming a fragment.
#[derive(Copy, Clone, PartialEq, Eq, Structural, Debug)]
pub enum TaskStatus {
    /// The task is finished.
    Complete,
    /// Another response fragment is expected.
    ReadNextResponse,
}

/// A read task: requests data and consumes as many response fragments as the
/// outstation sends.
#[derive(Copy, Clone, PartialEq, Eq, Structural, Debug)]
pub struct ReadTask {
    /// What the task reads.
    pub request: ReadRequest,
}

/// The full request fragment for `function` and `objects`, stamped with
/// `seq`: a self-contained request header followed by the object headers.
pub open spec fn request_data_spec(seq: u8, function: u8, objects: Seq<u8>) -> Seq<u8> {
    seq![Control::request_spec(seq).to_byte_spec(), function] + objects
}

impl ReadTask {
    /// The bytes of the task's request when stamped with `seq`.
    pub open spec fn request_spec(self, seq: u8) -> Seq<u8> {
        request_data_spec(seq, FUNCTION_READ, self.request.objects_spec())
    }

    /// Formats the task's read request stamped with `seq`.
    pub fn format(&self, seq: u8) -> (r: Vec<u8>)
        requires
            seq < 16,
        ensures
            r@ == self.request_spec(seq),
    {
        let control = Control::request(seq);
        let mut out: Vec<u8> = Vec::new();
        out.push(control.to_byte());
        out.push(FUNCTION_READ);
        self.request.format(&mut out);
        proof {
            assert(out@ =~= self.request_spec(seq));
        }
        out
    }

    /// Consumes one accepted fragment's header: the task is complete exactly
    /// when the fragment is final.
    pub fn handle(&self, response: ResponseHeader) -> (r: TaskStatus)
        ensures
            r == if response.control.fin {
                TaskStatus::Complete
            } else {
                TaskStatus::ReadNextResponse
            },
    {
        if response.control.fin {
            TaskStatus::Complete
        } else {
            TaskStatus::ReadNextResponse
        }
    }
}

/// A non-read command task — select, operate, and the like.  Its object
/// payload is formatted by the task's own encoder outside the engine; the
/// engine frames it and enforces the single-fragment response rule.
#[derive(Debug)]
pub struct CommandTask {
    /// The request's function code.
    pub function: u8,
    /// The request's pre-encoded object headers and data.
    pub objects: Vec<u8>,
}

impl CommandTask {
    /// The bytes of the task's request when stamped with `seq`.
    pub open spec fn request_spec(self, seq: u8) -> Seq<u8> {
        request_data_spec(seq, self.function, self.objects@)
    }

    /// Formats the task's request stamped with `seq`.
    pub fn format(&self, seq: u8) -> (r: Vec<u8>)
        requires
            seq < 16,
        ensures
            r@ == self.request_spec(seq),
    {
        let control = Control::request(seq);
        let mut out: Vec<u8> = Vec::new();
        out.push(control.to_byte());
        out.push(self.function);
        let mut i: usize = 0;
        while i < self.objects.len()
            invariant
                i <= self.objects.len(),
                out@ == seq![Control::request_spec(seq).to_byte_spec(), self.function]
                    + self.objects@.take(i as int),
            decreases self.objects.len() - i,
        {
            out.push(self.objects[i]);
            i += 1;
            proof {
                assert(out@ =~= seq![Control::request_spec(seq).to_byte_spec(), self.function]
                    + self.objects@.take(i as int));
            }
        }
        proof {
            assert(self.objects@.take(self.objects@.len() as int) =~= self.objects@);
            assert(out@ =~= self.request_spec(seq));
        }
        out
    }
}

/// What a task does: the closed set of task variants the runner dispatches
/// over.
#[derive(Debug)]
pub enum TaskDetails {
    /// A read task, whose response may span many fragments.
    Read(ReadTask),
    /// A non-read command task, whose response must be self-contained.
    Command(CommandTask),
}

impl TaskDetails {
    /// True for tasks whose response may span several fragments.
    pub fn is_read_request(&self) -> (r: bool)
        ensures
            r == (self is Read),
    {
        match self {
            TaskDetails::Read(_) => true,
            TaskDetails::Command(_) => false,
        }
    }

    /// The bytes of the task's request when stamped with `seq`.
    pub open spec fn request_spec(self, seq: u8) -> Seq<u8> {
        match self {
            TaskDetails::Read(task) => task.request_spec(seq),
            TaskDetails::Command(task) => task.request_spec(seq),
        }
    }

    /// Formats the task's request stamped with `seq`.
    pub fn format(&self, seq: u8) -> (r: Vec<u8>)
        requires
            seq < 16,
        ensures
            r@ == self.request_spec(seq),
    {
        match self {
            TaskDetails::Read(task) => task.format(seq),
            TaskDetails::Command(task) => task.format(seq),
        }
    }
}

/// One unit of work for the runner: where it goes, and what it does.
#[derive(Debug)]
pub struct MasterTask {
    /// Link address of the outstation the task addresses.
    pub destination: u16,
    /// The task's behaviour.
    pub details: TaskDetails,
}

impl MasterTask {
    /// A class-scan read task addressed to `destination`.
    pub fn class_scan(destination: u16, scan: ClassScan) -> (r: Self)
        ensures
            r.destination == destination,
            r.details == TaskDetails::Read(ReadTask { request: ReadRequest::ClassScan(scan) }),
    {
        MasterTask {
            destination,
            details: TaskDetails::Read(ReadTask { request: ReadRequest::class_scan(scan) }),
        }
    }

    /// A command task addressed to `destination`, with a pre-encoded payload.
    pub fn command(destination: u16, function: u8, objects: Vec<u8>) -> (r: Self)
        ensures
            r.destination == destination,
            r.details matches TaskDetails::Command(c) && c.function == function && c.objects@
                == objects@,
    {
        MasterTask { destination, details: TaskDetails::Command(CommandTask { function, objects }) }
    }
}

} // verus!
