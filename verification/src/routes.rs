//! The table of the service's routes: which method and path reach which
//! operation. The web server registers them in this order.
use vstd::prelude::*;

verus! {

/// An HTTP method.
#[derive(Debug, Clone, Copy, PartialEq, Eq, Structural)]
pub enum Method {
    Get,
    Post,
    Put,
    Patch,
    Delete,
}

/// An operation of the service.
#[derive(Debug, Clone, Copy, PartialEq, Eq, Structural)]
pub enum Endpoint {
    Health,
    CreateShipment,
    AssignServiceProvider,
    ListShipments,
    GetShipmentById,
    UpdateShipment,
    DeleteShipment,
    GetShipmentByTracking,
    UpdateShipmentStatus,
    GetShipmentsByProvider,
    UploadProof,
    GetShipmentsByStatus,
    GeneratePayment,
    GetAllPayments,
    GetPaymentByRef,
    GetPaymentByShipmentId,
    GetPaymentByStatus,
    GetDailyRevenue,
    GetWeeklyRevenue,
    GetMonthlyRevenue,
    HandleWebhook,
    DeletePayment,
    SendComplaint,
    GetAllComplaints,
    GetComplaintById,
    DeleteComplaint,
    GetComplaintByStatus,
    MakeComment,
    UpdateComplaintStatus,
    SignUp,
    Login,
    GetAllUsers,
    GetUserById,
    GetUserByEmail,
    GetUserByStatus,
    GetUserByRole,
    UpdateUser,
    UpdateUserStatus,
    DeleteUser,
}

/// A route: a method and a path (with `{name}` segments) that lead to an operation.
#[derive(Debug)]
pub struct Route {
    pub method: Method,
    pub path: String,
    pub endpoint: Endpoint,
}

/// What a route holds.
pub struct RouteView {
    pub method: Method,
    pub path: Seq<char>,
    pub endpoint: Endpoint,
}

impl View for Route {
    type V = RouteView;

    open spec fn view(&self) -> RouteView {
        RouteView { method: self.method, path: self.path@, endpoint: self.endpoint }
    }
}

/// The routes of the service, in the order in which they are registered.
pub open spec fn route_table() -> Seq<RouteView> {
    seq![
        RouteView { method: Method::Get, path: "/health"@, endpoint: Endpoint::Health },
        RouteView { method: Method::Post, path: "/shipments"@, endpoint: Endpoint::CreateShipment },
        RouteView { method: Method::Post, path: "/shipments/{shipment_id}/provider/{provider_id}"@, endpoint: Endpoint::AssignServiceProvider },
        RouteView { method: Method::Get, path: "/shipments"@, endpoint: Endpoint::ListShipments },
        RouteView { method: Method::Get, path: "/shipments/{id}"@, endpoint: Endpoint::GetShipmentById },
        RouteView { method: Method::Put, path: "/shipments/{id}"@, endpoint: Endpoint::UpdateShipment },
        RouteView { method: Method::Delete, path: "/shipments/{id}"@, endpoint: Endpoint::DeleteShipment },
        RouteView { method: Method::Get, path: "/shipments/tracking/{tracking}"@, endpoint: Endpoint::GetShipmentByTracking },
        RouteView { method: Method::Patch, path: "/shipments/tracking/{tracking}/status"@, endpoint: Endpoint::UpdateShipmentStatus },
        RouteView { method: Method::Get, path: "/shipments/provider/{provider_id}"@, endpoint: Endpoint::GetShipmentsByProvider },
        RouteView { method: Method::Post, path: "/shipments/tracking/{tracking}/proof"@, endpoint: Endpoint::UploadProof },
        RouteView { method: Method::Get, path: "/shipments/status/{status}"@, endpoint: Endpoint::GetShipmentsByStatus },
        RouteView { method: Method::Post, path: "/payments"@, endpoint: Endpoint::GeneratePayment },
        RouteView { method: Method::Get, path: "/payments"@, endpoint: Endpoint::GetAllPayments },
        RouteView { method: Method::Get, path: "/payments/reference/{ref}"@, endpoint: Endpoint::GetPaymentByRef },
        RouteView { method: Method::Get, path: "/payments/shipment/{shipment_id}"@, endpoint: Endpoint::GetPaymentByShipmentId },
        RouteView { method: Method::Get, path: "/payments/status/{status}"@, endpoint: Endpoint::GetPaymentByStatus },
        RouteView { method: Method::Get, path: "/payments/revenue/daily/{date}"@, endpoint: Endpoint::GetDailyRevenue },
        RouteView { method: Method::Get, path: "/payments/revenue/weekly/{date}"@, endpoint: Endpoint::GetWeeklyRevenue },
        RouteView { method: Method::Get, path: "/payments/revenue/monthly/{month}/{year}"@, endpoint: Endpoint::GetMonthlyRevenue },
        RouteView { method: Method::Post, path: "/payments/webhook"@, endpoint: Endpoint::HandleWebhook },
        RouteView { method: Method::Delete, path: "/payments/{ref}"@, endpoint: Endpoint::DeletePayment },
        RouteView { method: Method::Post, path: "/complaints"@, endpoint: Endpoint::SendComplaint },
        RouteView { method: Method::Get, path: "/complaints"@, endpoint: Endpoint::GetAllComplaints },
        RouteView { method: Method::Get, path: "/complaints/{id}"@, endpoint: Endpoint::GetComplaintById },
        RouteView { method: Method::Delete, path: "/complaints/{id}"@, endpoint: Endpoint::DeleteComplaint },
        RouteView { method: Method::Get, path: "/complaints/status/{status}"@, endpoint: Endpoint::GetComplaintByStatus },
        RouteView { method: Method::Patch, path: "/complaints/{id}/comment"@, endpoint: Endpoint::MakeComment },
        RouteView { method: Method::Post, path: "/complaints"@, endpoint: Endpoint::SendComplaint },
        RouteView { method: Method::Patch, path: "/complaints/{id}/status"@, endpoint: Endpoint::UpdateComplaintStatus },
        RouteView { method: Method::Post, path: "/users/signup"@, endpoint: Endpoint::SignUp },
        RouteView { method: Method::Post, path: "/users/login"@, endpoint: Endpoint::Login },
        RouteView { method: Method::Get, path: "/users"@, endpoint: Endpoint::GetAllUsers },
        RouteView { method: Method::Get, path: "/users/{id}"@, endpoint: Endpoint::GetUserById },
        RouteView { method: Method::Get, path: "/users/email/{email}"@, endpoint: Endpoint::GetUserByEmail },
        RouteView { method: Method::Get, path: "/users/status/{status}"@, endpoint: Endpoint::GetUserByStatus },
        RouteView { method: Method::Get, path: "/users/role/{role}"@, endpoint: Endpoint::GetUserByRole },
        RouteView { method: Method::Put, path: "/users/{id}"@, endpoint: Endpoint::UpdateUser },
        RouteView { method: Method::Patch, path: "/users/{id}/status"@, endpoint: Endpoint::UpdateUserStatus },
        RouteView { method: Method::Delete, path: "/users/{id}"@, endpoint: Endpoint::DeleteUser }
    ]
}

/// A request with this method and path reaches `endpoint`: the first route
/// of the table that has this method and path leads there.
pub open spec fn routes_to(method: Method, path: Seq<char>, endpoint: Endpoint) -> bool {
    exists|i: int|
        #![trigger route_table()[i]]
        0 <= i < route_table().len() && route_table()[i] == (RouteView { method, path, endpoint })
            && forall|j: int|
            0 <= j < i ==> !(route_table()[j].method == method && route_table()[j].path == path)
}

/// The endpoints that the project documents lead where they say: `POST
/// /shipments` creates a shipment, `GET /shipments` lists them, `GET
/// /shipments/{id}` fetches one by its identifier, `POST /payments` starts a
/// payment and `GET /payments/reference/{ref}` fetches one by its reference.
pub proof fn lemma_documented_endpoints()
    ensures
        routes_to(Method::Post, "/shipments"@, Endpoint::CreateShipment),
        routes_to(Method::Get, "/shipments"@, Endpoint::ListShipments),
        routes_to(Method::Get, "/shipments/{id}"@, Endpoint::GetShipmentById),
        routes_to(Method::Post, "/payments"@, Endpoint::GeneratePayment),
        routes_to(Method::Get, "/payments/reference/{ref}"@, Endpoint::GetPaymentByRef),
{
    reveal_strlit("/health");
    reveal_strlit("/shipments");
    reveal_strlit("/shipments/{id}");
    reveal_strlit("/shipments/{shipment_id}/provider/{provider_id}");
    reveal_strlit("/shipments/tracking/{tracking}");
    reveal_strlit("/shipments/provider/{provider_id}");
    reveal_strlit("/shipments/tracking/{tracking}/proof");
    reveal_strlit("/shipments/status/{status}");
    reveal_strlit("/payments");
    reveal_strlit("/payments/reference/{ref}");
    let t = route_table();
    assert(t[1] == RouteView { method: Method::Post, path: "/shipments"@, endpoint: Endpoint::CreateShipment });
    assert(t[3] == RouteView { method: Method::Get, path: "/shipments"@, endpoint: Endpoint::ListShipments });
    assert(t[4] == RouteView { method: Method::Get, path: "/shipments/{id}"@, endpoint: Endpoint::GetShipmentById });
    assert(t[12] == RouteView { method: Method::Post, path: "/payments"@, endpoint: Endpoint::GeneratePayment });
    assert(t[14] == RouteView { method: Method::Get, path: "/payments/reference/{ref}"@, endpoint: Endpoint::GetPaymentByRef });
    assert forall|j: int| 0 <= j < 1 implies !(t[j].method == Method::Post && t[j].path == "/shipments"@) by {}
    assert forall|j: int| 0 <= j < 3 implies !(t[j].method == Method::Get && t[j].path == "/shipments"@) by {
        assert(t[j].method != Method::Get || t[j].path.len() != "/shipments"@.len());
    }
    assert forall|j: int| 0 <= j < 4 implies !(t[j].method == Method::Get && t[j].path == "/shipments/{id}"@) by {
        assert(t[j].method != Method::Get || t[j].path.len() != "/shipments/{id}"@.len());
    }
    assert forall|j: int| 0 <= j < 12 implies !(t[j].method == Method::Post && t[j].path == "/payments"@) by {
        assert(t[j].method != Method::Post || t[j].path.len() != "/payments"@.len());
    }
    assert forall|j: int| 0 <= j < 14 implies !(t[j].method == Method::Get && t[j].path == "/payments/reference/{ref}"@) by {
        assert(t[j].method != Method::Get || t[j].path.len() != "/payments/reference/{ref}"@.len());
    }
}

/// Every operation of the service is reachable: some route leads to it.
pub proof fn lemma_every_endpoint_routed(e: Endpoint)
    ensures
        exists|i: int| 0 <= i < route_table().len() && #[trigger] route_table()[i].endpoint == e,
{
    let t = route_table();
    let i: int = match e {
        Endpoint::Health => 0,
        Endpoint::CreateShipment => 1,
        Endpoint::AssignServiceProvider => 2,
        Endpoint::ListShipments => 3,
        Endpoint::GetShipmentById => 4,
        Endpoint::UpdateShipment => 5,
        Endpoint::DeleteShipment => 6,
        Endpoint::GetShipmentByTracking => 7,
        Endpoint::UpdateShipmentStatus => 8,
        Endpoint::GetShipmentsByProvider => 9,
        Endpoint::UploadProof => 10,
        Endpoint::GetShipmentsByStatus => 11,
        Endpoint::GeneratePayment => 12,
        Endpoint::GetAllPayments => 13,
        Endpoint::GetPaymentByRef => 14,
        Endpoint::GetPaymentByShipmentId => 15,
        Endpoint::GetPaymentByStatus => 16,
        Endpoint::GetDailyRevenue => 17,
        Endpoint::GetWeeklyRevenue => 18,
        Endpoint::GetMonthlyRevenue => 19,
        Endpoint::HandleWebhook => 20,
        Endpoint::DeletePayment => 21,
        Endpoint::SendComplaint => 22,
        Endpoint::GetAllComplaints => 23,
        Endpoint::GetComplaintById => 24,
        Endpoint::DeleteComplaint => 25,
        Endpoint::GetComplaintByStatus => 26,
        Endpoint::MakeComment => 27,
        Endpoint::UpdateComplaintStatus => 29,
        Endpoint::SignUp => 30,
        Endpoint::Login => 31,
        Endpoint::GetAllUsers => 32,
        Endpoint::GetUserById => 33,
        Endpoint::GetUserByEmail => 34,
        Endpoint::GetUserByStatus => 35,
        Endpoint::GetUserByRole => 36,
        Endpoint::UpdateUser => 37,
        Endpoint::UpdateUserStatus => 38,
        Endpoint::DeleteUser => 39,
    };
    assert(t[i].endpoint == e);
}

/// The views of a list of routes.
pub open spec fn route_views(v: Seq<Route>) -> Seq<RouteView> {
    v.map_values(|r: Route| r@)
}

fn add_route(v: &mut Vec<Route>, method: Method, path: &str, endpoint: Endpoint)
    ensures
        route_views(final(v)@) == route_views(old(v)@).push(
            RouteView { method, path: path@, endpoint },
        ),
{
    let ghost before = v@;
    v.push(Route { method, path: String::from_str(path), endpoint });
    assert(route_views(v@) =~= route_views(before).push(RouteView { method, path: path@, endpoint }));
}

/// The routes of the service.
pub fn configure_routes() -> (r: Vec<Route>)
    ensures
        route_views(r@) == route_table(),
{
    let mut v: Vec<Route> = Vec::new();
    assert(route_views(v@) =~= Seq::<RouteView>::empty());
    add_route(&mut v, Method::Get, "/health", Endpoint::Health);
    add_route(&mut v, Method::Post, "/shipments", Endpoint::CreateShipment);
    add_route(&mut v, Method::Post, "/shipments/{shipment_id}/provider/{provider_id}", Endpoint::AssignServiceProvider);
    add_route(&mut v, Method::Get, "/shipments", Endpoint::ListShipments);
    add_route(&mut v, Method::Get, "/shipments/{id}", Endpoint::GetShipmentById);
    add_route(&mut v, Method::Put, "/shipments/{id}", Endpoint::UpdateShipment);
    add_route(&mut v, Method::Delete, "/shipments/{id}", Endpoint::DeleteShipment);
    add_route(&mut v, Method::Get, "/shipments/tracking/{tracking}", Endpoint::GetShipmentByTracking);
    add_route(&mut v, Method::Patch, "/shipments/tracking/{tracking}/status", Endpoint::UpdateShipmentStatus);
    add_route(&mut v, Method::Get, "/shipments/provider/{provider_id}", Endpoint::GetShipmentsByProvider);
    add_route(&mut v, Method::Post, "/shipments/tracking/{tracking}/proof", Endpoint::UploadProof);
    add_route(&mut v, Method::Get, "/shipments/status/{status}", Endpoint::GetShipmentsByStatus);
    add_route(&mut v, Method::Post, "/payments", Endpoint::GeneratePayment);
    add_route(&mut v, Method::Get, "/payments", Endpoint::GetAllPayments);
    add_route(&mut v, Method::Get, "/payments/reference/{ref}", Endpoint::GetPaymentByRef);
    add_route(&mut v, Method::Get, "/payments/shipment/{shipment_id}", Endpoint::GetPaymentByShipmentId);
    add_route(&mut v, Method::Get, "/payments/status/{status}", Endpoint::GetPaymentByStatus);
    add_route(&mut v, Method::Get, "/payments/revenue/daily/{date}", Endpoint::GetDailyRevenue);
    add_route(&mut v, Method::Get, "/payments/revenue/weekly/{date}", Endpoint::GetWeeklyRevenue);
    add_route(&mut v, Method::Get, "/payments/revenue/monthly/{month}/{year}", Endpoint::GetMonthlyRevenue);
    add_route(&mut v, Method::Post, "/payments/webhook", Endpoint::HandleWebhook);
    add_route(&mut v, Method::Delete, "/payments/{ref}", Endpoint::DeletePayment);
    add_route(&mut v, Method::Post, "/complaints", Endpoint::SendComplaint);
    add_route(&mut v, Method::Get, "/complaints", Endpoint::GetAllComplaints);
    add_route(&mut v, Method::Get, "/complaints/{id}", Endpoint::GetComplaintById);
    add_route(&mut v, Method::Delete, "/complaints/{id}", Endpoint::DeleteComplaint);
    add_route(&mut v, Method::Get, "/complaints/status/{status}", Endpoint::GetComplaintByStatus);
    add_route(&mut v, Method::Patch, "/complaints/{id}/comment", Endpoint::MakeComment);
    add_route(&mut v, Method::Post, "/complaints", Endpoint::SendComplaint);
    add_route(&mut v, Method::Patch, "/complaints/{id}/status", Endpoint::UpdateComplaintStatus);
    add_route(&mut v, Method::Post, "/users/signup", Endpoint::SignUp);
    add_route(&mut v, Method::Post, "/users/login", Endpoint::Login);
    add_route(&mut v, Method::Get, "/users", Endpoint::GetAllUsers);
    add_route(&mut v, Method::Get, "/users/{id}", Endpoint::GetUserById);
    add_route(&mut v, Method::Get, "/users/email/{email}", Endpoint::GetUserByEmail);
    add_route(&mut v, Method::Get, "/users/status/{status}", Endpoint::GetUserByStatus);
    add_route(&mut v, Method::Get, "/users/role/{role}", Endpoint::GetUserByRole);
    add_route(&mut v, Method::Put, "/users/{id}", Endpoint::UpdateUser);
    add_route(&mut v, Method::Patch, "/users/{id}/status", Endpoint::UpdateUserStatus);
    add_route(&mut v, Method::Delete, "/users/{id}", Endpoint::DeleteUser);
    assert(route_views(v@) =~= route_table());
    v
}

} // verus!
