use portfolio::domains::on_demand_tls;
use portfolio::status::Status;

fn assert_status(res: &(Status, ()), status_code: Status) {
    assert_eq!(res.0, status_code, "Status should be {}", status_code.code())
}

#[test]
fn test_answers_not_found_for_unknown_domain() {
    let domains = vec!["example.com", "foo.avg.name", "nobodyhere.average.name"];

    for domain in domains {
        let res = on_demand_tls(domain);
        assert_status(&res, Status::NotFound);
    }
}

#[test]
fn test_answers_no_content_for_known_domain() {
    let domains = vec!["avg.name", "dotfiles.avg.name", "avg.average.name"];

    for domain in domains {
        let res = on_demand_tls(domain);
        assert_status(&res, Status::NoContent);
    }
}

#[test]
fn on_demand_tls_matches_exactly_and_case_sensitively() {
    for domain in ["AVG.NAME", "avg.name.", "www.avg.name.evil", "", "test.average.name"] {
        assert_eq!(on_demand_tls(domain).0, Status::NotFound, "{domain}");
    }
    for domain in ["www.avg.name", "redir.avg.name", "avgtest.average.name", "blog.avg.name"] {
        assert_eq!(on_demand_tls(domain).0, Status::NoContent, "{domain}");
    }
}

#[test]
fn statuses_have_their_codes() {
    assert_eq!(Status::Success.code(), 200);
    assert_eq!(Status::NoContent.code(), 204);
    assert_eq!(Status::MovedPermanently.code(), 301);
    assert_eq!(Status::Found.code(), 302);
    assert_eq!(Status::BadRequest.code(), 400);
    assert_eq!(Status::NotFound.code(), 404);
    assert_eq!(Status::InternalServerError.code(), 500);
}
