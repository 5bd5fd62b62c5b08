//! Shapes of the admin-facing requests and responses.

use vstd::prelude::*;

use crate::ids::format_u64;
use crate::ids::spec_dec;
use crate::models::course::Course;

verus! {

/// The body of an admin signup request; on its way into the store the
/// `password` field carries the salted hash instead of the plaintext.
#[derive(Debug)]
pub struct CreateAdmin {
    pub name: String,
    pub email: String,
    pub password: String,
}

/// A course to insert, with its owning admin resolved.
#[derive(Debug)]
pub struct CreateCourse {
    pub title: String,
    pub image_url: Option<String>,
    pub price: i32,
    pub admin_id: u64,
}

/// The body of a course-creation request; the owning admin comes from the
/// authenticated context, not the body.
#[derive(Debug)]
pub struct CreateCourseWithoutAdminId {
    pub title: String,
    pub image_url: Option<String>,
    pub price: i32,
}

/// The body of a course-update request: the three mutable fields.
#[derive(Debug)]
pub struct UpdateCourse {
    pub title: String,
    pub image_url: Option<String>,
    pub price: i32,
}

/// A course as it is rendered over the wire, identifiers in display form.
#[derive(Debug)]
pub struct CourseResponse {
    pub id: String,
    pub title: String,
    pub image_url: Option<String>,
    pub price: i32,
    pub admin_id: String,
}

/// Whether a wire course is the display rendering of a stored course.
pub open spec fn course_response_matches(resp: CourseResponse, c: Course) -> bool {
    &&& resp.id@ == spec_dec(c.id as nat)
    &&& resp.title@ == c.title@
    &&& resp.image_url.deep_view() == c.image_url.deep_view()
    &&& resp.price == c.price
    &&& resp.admin_id@ == spec_dec(c.admin_id as nat)
}

impl CourseResponse {
    /// Render a stored course over the wire, identifiers in display form.
    pub fn from_course(c: &Course) -> (r: CourseResponse)
        ensures
            course_response_matches(r, *c),
    {
        let image_url = match &c.image_url {
            Some(s) => Some(s.clone()),
            None => None,
        };
        CourseResponse {
            id: format_u64(c.id),
            title: c.title.clone(),
            image_url,
            price: c.price,
            admin_id: format_u64(c.admin_id),
        }
    }
}

} // verus!
