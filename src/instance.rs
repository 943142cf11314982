//! The instance resource client: each lifecycle operation is one request to
//! the controller under `/instance`, and its answer or failure is handed back
//! unchanged, a failure tagged with the operation that met it.
//!
//! Sending a request is the transport's work. An operation is therefore two
//! steps here: the request to send, and the result made from what the
//! transport returned.

use vstd::prelude::*;
use vstd::string::*;

verus! {

/// The resources of a workload, carried through as the controller sent them.
#[derive(Clone, Debug)]
pub struct Resources {
    pub cpu: u64,
    pub memory: u64,
    pub disk: u64,
}

/// An instance running on the cluster, as the controller reports it.
#[derive(Clone, Debug)]
pub struct Instance {
    pub id: String,
    pub name: String,
    /// The workload kind tag (`type` on the wire).
    pub kind: String,
    pub uri: String,
    pub ports: Vec<String>,
    pub env: Vec<String>,
    pub resources: Resources,
    pub status: String,
}

/// The answer to a listing.
#[derive(Debug)]
pub struct GetInstancesResponse {
    /// How many instances the controller knows.
    pub count: u64,
    pub instances: Vec<Instance>,
}

/// The answer to a creation.
#[derive(Debug)]
pub struct IdResponse {
    pub id: String,
}

/// The HTTP methods that the client uses.
#[derive(Clone, Copy, Debug, PartialEq, Eq, Structural)]
pub enum HttpMethod {
    Get,
    Put,
    Delete,
}

/// A lifecycle operation on instances.
#[derive(Clone, Copy, Debug, PartialEq, Eq, Structural)]
pub enum InstanceOp {
    Create,
    List,
    Get,
    Delete,
}

/// A request of the instance client. None carries a body.
#[derive(Debug)]
pub enum InstanceRequest {
    Create { workload_id: String },
    List,
    Get { instance_id: String },
    Delete { instance_id: String },
}

impl InstanceRequest {
    pub open spec fn spec_op(&self) -> InstanceOp {
        match self {
            InstanceRequest::Create { .. } => InstanceOp::Create,
            InstanceRequest::List => InstanceOp::List,
            InstanceRequest::Get { .. } => InstanceOp::Get,
            InstanceRequest::Delete { .. } => InstanceOp::Delete,
        }
    }

    pub open spec fn spec_method(&self) -> HttpMethod {
        match self {
            InstanceRequest::Create { .. } => HttpMethod::Put,
            InstanceRequest::List => HttpMethod::Get,
            InstanceRequest::Get { .. } => HttpMethod::Get,
            InstanceRequest::Delete { .. } => HttpMethod::Delete,
        }
    }

    /// The path on the controller: the workload id goes in the query, an
    /// instance id in the path.
    pub open spec fn spec_path(&self) -> Seq<char> {
        match self {
            InstanceRequest::Create { workload_id } => "/instance/?workloadId="@ + workload_id@,
            InstanceRequest::List => "/instance"@,
            InstanceRequest::Get { instance_id } => "/instance/"@ + instance_id@,
            InstanceRequest::Delete { instance_id } => "/instance/"@ + instance_id@,
        }
    }

    pub fn op(&self) -> (r: InstanceOp)
        ensures
            r == self.spec_op(),
    {
        match self {
            InstanceRequest::Create { .. } => InstanceOp::Create,
            InstanceRequest::List => InstanceOp::List,
            InstanceRequest::Get { .. } => InstanceOp::Get,
            InstanceRequest::Delete { .. } => InstanceOp::Delete,
        }
    }

    pub fn method(&self) -> (r: HttpMethod)
        ensures
            r == self.spec_method(),
    {
        match self {
            InstanceRequest::Create { .. } => HttpMethod::Put,
            InstanceRequest::List => HttpMethod::Get,
            InstanceRequest::Get { .. } => HttpMethod::Get,
            InstanceRequest::Delete { .. } => HttpMethod::Delete,
        }
    }

    pub fn path(&self) -> (r: String)
        ensures
            r@ == self.spec_path(),
    {
        match self {
            InstanceRequest::Create { workload_id } => {
                let mut p = "/instance/?workloadId=".to_owned();
                p.append(workload_id.as_str());
                p
            },
            InstanceRequest::List => "/instance".to_owned(),
            InstanceRequest::Get { instance_id } => {
                let mut p = "/instance/".to_owned();
                p.append(instance_id.as_str());
                p
            },
            InstanceRequest::Delete { instance_id } => {
                let mut p = "/instance/".to_owned();
                p.append(instance_id.as_str());
                p
            },
        }
    }
}

/// A failure of the transport: the HTTP status where the controller answered
/// with one that is not a success, and a description.
#[derive(Debug)]
pub struct TransportError {
    pub status: Option<u16>,
    pub message: String,
}

/// A failed instance operation, with the transport's failure as its cause.
#[derive(Debug)]
pub struct InstanceError {
    pub op: InstanceOp,
    pub cause: TransportError,
}

/// The context that names a failed operation.
pub open spec fn spec_context(op: InstanceOp) -> Seq<char> {
    match op {
        InstanceOp::Create => "Error creating instance"@,
        InstanceOp::List => "Error getting instances"@,
        InstanceOp::Get => "Error getting instance"@,
        InstanceOp::Delete => "Error deleting instance"@,
    }
}

/// The message of a failed operation: its context, then its cause.
pub open spec fn spec_message(e: InstanceError) -> Seq<char> {
    spec_context(e.op) + ": "@ + e.cause.message@
}

/// A transport result as the operation `op` returns it.
pub open spec fn spec_wrapped<T>(op: InstanceOp, response: Result<T, TransportError>) -> Result<
    T,
    InstanceError,
> {
    match response {
        Ok(v) => Ok(v),
        Err(e) => Err(InstanceError { op, cause: e }),
    }
}

impl InstanceError {
    pub fn context(&self) -> (r: &'static str)
        ensures
            r@ == spec_context(self.op),
    {
        match self.op {
            InstanceOp::Create => "Error creating instance",
            InstanceOp::List => "Error getting instances",
            InstanceOp::Get => "Error getting instance",
            InstanceOp::Delete => "Error deleting instance",
        }
    }

    /// The operation's context followed by the cause.
    pub fn message(&self) -> (r: String)
        ensures
            r@ == spec_message(*self),
    {
        let mut m = self.context().to_owned();
        m.append(": ");
        m.append(self.cause.message.as_str());
        m
    }

    /// Whether the controller answered that the instance does not exist.
    pub fn is_not_found(&self) -> (r: bool)
        ensures
            r == (self.cause.status == Some(404u16)),
    {
        match self.cause.status {
            Some(s) => s == 404,
            None => false,
        }
    }
}

/// The request that starts an instance of the workload `workload_id`.
pub fn create_request(workload_id: &String) -> (r: InstanceRequest)
    ensures
        r == (InstanceRequest::Create { workload_id: *workload_id }),
{
    InstanceRequest::Create { workload_id: workload_id.clone() }
}

/// The request that lists the instances.
pub fn list_request() -> (r: InstanceRequest)
    ensures
        r == InstanceRequest::List,
{
    InstanceRequest::List
}

/// The request that fetches one instance.
pub fn get_request(instance_id: &str) -> (r: InstanceRequest)
    ensures
        r matches InstanceRequest::Get { instance_id: i } && i@ == instance_id@,
{
    InstanceRequest::Get { instance_id: instance_id.to_owned() }
}

/// The request that deletes one instance.
pub fn delete_request(instance_id: &str) -> (r: InstanceRequest)
    ensures
        r matches InstanceRequest::Delete { instance_id: i } && i@ == instance_id@,
{
    InstanceRequest::Delete { instance_id: instance_id.to_owned() }
}

/// What creation returns for a transport result.
pub open spec fn spec_create_result(response: Result<IdResponse, TransportError>) -> Result<
    String,
    InstanceError,
> {
    match response {
        Ok(resp) => Ok(resp.id),
        Err(e) => Err(InstanceError { op: InstanceOp::Create, cause: e }),
    }
}

/// The id of the created instance, or the failure tagged `Create`.
pub fn create_result(response: Result<IdResponse, TransportError>) -> (r: Result<String, InstanceError>)
    ensures
        r == spec_create_result(response),
{
    match response {
        Ok(resp) => Ok(resp.id),
        Err(e) => Err(InstanceError { op: InstanceOp::Create, cause: e }),
    }
}

/// The listing, or the failure tagged `List`.
pub fn list_result(response: Result<GetInstancesResponse, TransportError>) -> (r: Result<
    GetInstancesResponse,
    InstanceError,
>)
    ensures
        r == spec_wrapped(InstanceOp::List, response),
{
    match response {
        Ok(resp) => Ok(resp),
        Err(e) => Err(InstanceError { op: InstanceOp::List, cause: e }),
    }
}

/// The instance, or the failure tagged `Get`.
pub fn get_result(response: Result<Instance, TransportError>) -> (r: Result<Instance, InstanceError>)
    ensures
        r == spec_wrapped(InstanceOp::Get, response),
{
    match response {
        Ok(resp) => Ok(resp),
        Err(e) => Err(InstanceError { op: InstanceOp::Get, cause: e }),
    }
}

/// Success, or the failure tagged `Delete`.
pub fn delete_result(response: Result<(), TransportError>) -> (r: Result<(), InstanceError>)
    ensures
        r == spec_wrapped(InstanceOp::Delete, response),
{
    match response {
        Ok(()) => Ok(()),
        Err(e) => Err(InstanceError { op: InstanceOp::Delete, cause: e }),
    }
}

/// A failed fetch is reported as `Error getting instance`, with the
/// transport's failure kept whole as its cause.
pub proof fn lemma_get_error_wrapping(cause: TransportError)
    ensures
        ({
            let r = spec_wrapped::<Instance>(InstanceOp::Get, Err(cause));
            &&& r matches Err(e) && e.cause == cause
            &&& r matches Err(e) && spec_message(e).subrange(0, "Error getting instance"@.len() as int)
                == "Error getting instance"@
        }),
{
    let e = InstanceError { op: InstanceOp::Get, cause };
    let ctx = "Error getting instance"@;
    assert((ctx + ": "@ + cause.message@).subrange(0, ctx.len() as int) =~= ctx);
}

/// Whether the listing holds an instance with the id `id`.
pub open spec fn lists_id(listing: GetInstancesResponse, id: Seq<char>) -> bool {
    exists|k: int| 0 <= k < listing.instances@.len() && #[trigger] listing.instances@[k].id@ == id
}

/// A create, get, list, delete, get round trip: the id that creation returns
/// is the one that the fetch and the deletion address; every answer comes back
/// as the transport gave it, with no cached copy, so a controller that fetches
/// and lists the instance it created yields that id, and one that answers the
/// fetch after deletion with 404 yields a not-found failure of the fetch.
pub proof fn lemma_crud_round_trip(
    created: IdResponse,
    fetched: Instance,
    listing: GetInstancesResponse,
    gone: TransportError,
)
    requires
        fetched.id@ == created.id@,
        lists_id(listing, created.id@),
        gone.status == Some(404u16),
    ensures
        spec_create_result(Ok(created)) == Ok::<String, InstanceError>(created.id),
        (InstanceRequest::Get { instance_id: created.id }).spec_path() == "/instance/"@
            + created.id@,
        (InstanceRequest::Delete { instance_id: created.id }).spec_path() == "/instance/"@
            + created.id@,
        spec_wrapped(InstanceOp::Get, Ok::<Instance, TransportError>(fetched)) matches Ok(i)
            && i.id@ == created.id@,
        spec_wrapped(InstanceOp::List, Ok::<GetInstancesResponse, TransportError>(listing)) matches Ok(l)
            && lists_id(l, created.id@),
        spec_wrapped(InstanceOp::Get, Err::<Instance, TransportError>(gone)) matches Err(e) && e.op
            == InstanceOp::Get && e.cause.status == Some(404u16),
{
}

} // verus!
