use image_proxy::fetch::FetchRequest;
use image_proxy::request::{fetch_request, find_values, image_url_from_parameters, RequestError};

fn image_url(query: &str) -> Result<String, RequestError> {
    fetch_request(query).map(|request| request.url)
}

fn strings(items: &[&str]) -> Vec<String> {
    items.iter().map(|s| s.to_string()).collect()
}

#[test]
fn fetch_request_holds_the_address() {
    assert_eq!(
        fetch_request("image_url=https://a.example/x.jpg"),
        Ok(FetchRequest { url: "https://a.example/x.jpg".to_string() })
    );
    assert_eq!(fetch_request("x=1"), Err(RequestError::NoImageUrl));
}

#[test]
fn image_url_reads_the_address() {
    assert_eq!(
        image_url("image_url=https://sr.gallerix.ru/_UNK/1018810316/3526.jpg"),
        Ok("https://sr.gallerix.ru/_UNK/1018810316/3526.jpg".to_string())
    );
}

#[test]
fn image_url_decodes_percent_escapes() {
    assert_eq!(
        image_url("image_url=https%3A%2F%2Fa.example%2Fx%20y.jpg%3Fsize%3D1%26v%3D2"),
        Ok("https://a.example/x y.jpg?size=1&v=2".to_string())
    );
    assert_eq!(image_url("image_url=a+b"), Ok("a b".to_string()));
}

#[test]
fn image_url_ignores_other_parameters() {
    assert_eq!(image_url("a=1&image_url=x.jpg&z=2"), Ok("x.jpg".to_string()));
}

#[test]
fn image_url_takes_the_last_of_several() {
    assert_eq!(image_url("image_url=a.jpg&image_url=b.jpg"), Ok("b.jpg".to_string()));
    assert_eq!(image_url("image_url[0]=a.jpg&image_url[1]=b.jpg"), Ok("b.jpg".to_string()));
}

#[test]
fn image_url_is_missing() {
    assert_eq!(image_url(""), Err(RequestError::NoImageUrl));
    assert_eq!(image_url("image=x.jpg"), Err(RequestError::NoImageUrl));
    assert_eq!(image_url("image_url"), Err(RequestError::NoImageUrl));
}

#[test]
fn image_url_in_a_query_that_does_not_parse() {
    assert_eq!(image_url("image_url[a][b]=x.jpg"), Err(RequestError::BadQuery));
    assert_eq!(image_url("image_url=%ff"), Err(RequestError::BadQuery));
}

#[test]
fn image_url_from_parameters_names_what_is_missing() {
    assert_eq!(image_url_from_parameters(None), Err(RequestError::BadQuery));
    assert_eq!(image_url_from_parameters(Some(Vec::new())), Err(RequestError::NoImageUrl));
    assert_eq!(
        image_url_from_parameters(Some(vec![("image_url".to_string(), Vec::new())])),
        Err(RequestError::NoImageUrl)
    );
    assert_eq!(
        image_url_from_parameters(Some(vec![
            ("a".to_string(), strings(&["1"])),
            ("image_url".to_string(), strings(&["x", "y"])),
        ])),
        Ok("y".to_string())
    );
}

#[test]
fn find_values_takes_the_first_parameter_of_that_name() {
    let parameters = vec![
        ("a".to_string(), strings(&["1"])),
        ("b".to_string(), strings(&["2", "3"])),
        ("b".to_string(), strings(&["4"])),
    ];
    assert_eq!(find_values(&parameters, "a"), Some(&strings(&["1"])));
    assert_eq!(find_values(&parameters, "b"), Some(&strings(&["2", "3"])));
    assert_eq!(find_values(&parameters, "c"), None);
    assert_eq!(find_values(&parameters, ""), None);
    assert_eq!(find_values(&Vec::new(), "a"), None);
}
