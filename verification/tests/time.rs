use nucleo::erro::Erro;
use nucleo::modelo::{MAX_AGENTES_POR_WORKSPACE, MAX_RECRUTAS_POR_CADEIA};
use nucleo::time::{
    checar_dispensa, decidir_recrutamento, resultado_de_dispensa, resultado_de_recrutamento,
    texto_de_dispensa, Recrutamento,
};

fn biblioteca() -> Vec<String> {
    ["Pesquisador", "Redator", "Revisor", "Analista", "Organizador"].iter().map(|s| s.to_string()).collect()
}

fn no(id: &str, nome: &str, papel: Option<&str>) -> (String, String, Option<String>) {
    (id.to_string(), nome.to_string(), papel.map(String::from))
}

fn recusa(r: Result<Recrutamento, Erro>) -> String {
    match r {
        Err(Erro::Invalido(m)) => m,
        outro => panic!("esperava recusa, veio {outro:?}"),
    }
}

#[test]
fn recrutar_com_papel_que_nao_existe_diz_quais_existem() {
    let m = recusa(decidir_recrutamento("Feiticeiro", &biblioteca(), "X", &vec![], 0, 0));
    assert_eq!(
        m,
        "não existe papel \"Feiticeiro\" na biblioteca. Os que existem: Pesquisador, Redator, Revisor, Analista, Organizador."
    );
}

#[test]
fn recrutar_de_novo_devolve_quem_ja_existe_em_vez_de_um_bruno2() {
    let nos = vec![no("n1", "Chefe", None), no("n2", "Bruno", Some("Redator"))];
    assert_eq!(
        decidir_recrutamento("Redator", &biblioteca(), " bruno ", &nos, 0, 2),
        Ok(Recrutamento::JaExiste("n2".to_string()))
    );
    // Nem os tetos impedem devolver quem já existe: nada é criado.
    assert_eq!(
        decidir_recrutamento("Redator", &biblioteca(), "Bruno", &nos, MAX_RECRUTAS_POR_CADEIA, 99),
        Ok(Recrutamento::JaExiste("n2".to_string()))
    );
}

#[test]
fn nome_repetido_e_recusado_na_hora_de_recrutar() {
    let nos = vec![no("n2", "Ana", Some("Redator"))];
    let m = recusa(decidir_recrutamento("Revisor", &biblioteca(), "Ana", &nos, 0, 1));
    assert!(m.contains("já existe"), "{m}");
    assert!(m.contains("Redator"), "{m}");
    assert!(m.contains("número"), "{m}");
    let m = recusa(decidir_recrutamento("Revisor", &biblioteca(), "Casa", &vec![no("n3", "casa", None)], 0, 0));
    assert!(m.contains("de um nó sem papel"), "{m}");
}

#[test]
fn o_teto_de_recrutas_por_cadeia_para_o_time_de_crescer() {
    let m = recusa(decidir_recrutamento("Redator", &biblioteca(), "Demais", &vec![], MAX_RECRUTAS_POR_CADEIA, 0));
    assert_eq!(m, "esta cadeia já recrutou 6 agentes, o limite dela. Trabalhe com o time que tem.");
    let m = recusa(decidir_recrutamento("Redator", &biblioteca(), "Gota", &vec![], 0, MAX_AGENTES_POR_WORKSPACE));
    assert!(m.contains("dispensar"), "{m}");
    assert_eq!(
        decidir_recrutamento("Redator", &biblioteca(), "Nova", &vec![], MAX_RECRUTAS_POR_CADEIA - 1, 0),
        Ok(Recrutamento::Novo)
    );
}

#[test]
fn so_quem_recrutou_dispensa() {
    assert!(checar_dispensa("chefe", &Some("chefe".into()), "Bia").is_ok());
    match checar_dispensa("chefe", &None, "Da casa") {
        Err(Erro::Invalido(m)) => assert!(m.contains("não recrutou"), "{m}"),
        outro => panic!("veio {outro:?}"),
    }
    assert!(checar_dispensa("chefe", &Some("outro".into()), "Bia").is_err());
}

#[test]
fn dispensar_encerra_a_sessao_e_nao_apaga_o_no() {
    assert_eq!(texto_de_dispensa("Chefe"), "Dispensado por Chefe.");
    let j = |s: &str| -> serde_json::Value { serde_json::from_str(s).unwrap() };
    assert_eq!(resultado_de_dispensa(), j(r#"{ "encerrado": true }"#));
}

#[test]
fn recrutar_poe_o_agente_no_canvas_ja_ligado_a_quem_recrutou() {
    let nos = vec![no("n1", "Chefe", None)];
    assert_eq!(decidir_recrutamento("Redator", &biblioteca(), "Redator", &nos, 0, 1), Ok(Recrutamento::Novo));
    let j = |s: &str| -> serde_json::Value { serde_json::from_str(s).unwrap() };
    assert_eq!(resultado_de_recrutamento("Redator"), j(r#"{ "no": "Redator" }"#));
}
