use nucleo::erro::Erro;
use nucleo::ferramentas::SERVIDOR;
use nucleo::mcp::{abrir_pedido, atender, como_texto, resposta_da_ferramenta, sem_prefixo, Entrada, Passo};
use nucleo::papeis::ferramentas_do_papel;

fn j(s: &str) -> serde_json::Value {
    serde_json::from_str(s).unwrap()
}

fn todas() -> Vec<String> {
    ferramentas_do_papel(None)
}

/// Abre e despacha um pedido, como a borda faz depois de achar a sessão.
fn chamar(corpo: &str, permitidas: &Vec<String>) -> (u16, String, Option<(serde_json::Value, String, serde_json::Value)>) {
    match atender("token-de-teste", corpo, Some(permitidas.clone())) {
        Passo::Pronta(r) => (r.codigo, r.corpo, None),
        Passo::Executar { id, nome, args } => (0, String::new(), Some((id, nome, args))),
    }
}

#[test]
fn o_handshake_do_mcp_e_o_que_a_cli_faz_de_verdade() {
    let (codigo, corpo, _) = chamar(
        r#"{ "jsonrpc": "2.0", "id": "server-discover-probe-1", "method": "server/discover" }"#,
        &todas(),
    );
    assert_eq!(codigo, 200);
    let v = j(&corpo);
    assert_eq!(v["id"], "server-discover-probe-1");

    let (_, corpo, _) = chamar(
        r#"{ "jsonrpc": "2.0", "id": 0, "method": "initialize", "params": { "protocolVersion": "2025-11-25" } }"#,
        &todas(),
    );
    let v = j(&corpo);
    assert_eq!(v["result"]["protocolVersion"], "2025-11-25");
    assert_eq!(v["result"]["serverInfo"]["name"], SERVIDOR);

    let (codigo, corpo, _) =
        chamar(r#"{ "jsonrpc": "2.0", "method": "notifications/initialized" }"#, &todas());
    assert_eq!(codigo, 202);
    assert!(corpo.is_empty(), "respondemos a uma notificação: {corpo}");

    let (_, corpo, _) = chamar(r#"{ "jsonrpc": "2.0", "id": 1, "method": "tools/list" }"#, &todas());
    let v = j(&corpo);
    assert_eq!(v["result"]["tools"].as_array().unwrap().len(), ferramentas_do_papel(None).len());

    let (_, corpo, _) = chamar(r#"{ "jsonrpc": "2.0", "id": 9, "method": "resources/list" }"#, &todas());
    let v = j(&corpo);
    assert_eq!(v["error"]["code"], -32601);
    assert_eq!(v["error"]["message"], "método desconhecido: resources/list");
}

#[test]
fn sem_versao_pedida_vai_a_nossa() {
    let (_, corpo, _) = chamar(r#"{ "jsonrpc": "2.0", "id": 1, "method": "initialize" }"#, &todas());
    assert_eq!(j(&corpo)["result"]["protocolVersion"], "2025-06-18");
    let (_, corpo, _) = chamar(r#"{ "jsonrpc": "2.0", "id": 7, "method": "ping" }"#, &todas());
    assert_eq!(j(&corpo)["result"], j("{}"));
}

#[test]
fn o_mcp_so_atende_quem_tem_o_token_da_sessao() {
    let listar = r#"{ "jsonrpc": "2.0", "id": 1, "method": "tools/list" }"#;
    for token in ["", "   "] {
        match abrir_pedido(token, listar) {
            Entrada::Pronta(r) => {
                assert_eq!(r.codigo, 403, "token {token:?} passou");
                assert!(!r.corpo.contains("enviar_para"), "vazou o catálogo: {}", r.corpo);
                assert_eq!(r.corpo, "{}");
            }
            _ => panic!("token {token:?} passou"),
        }
    }
    // Token que não é de sessão nenhuma: a borda não acha ferramentas para
    // ele, e a resposta é a mesma, sem catálogo.
    let longo = "a".repeat(64);
    for token in ["", "   ", "token-inventado", longo.as_str()] {
        match atender(token, listar, None) {
            Passo::Pronta(r) => {
                assert_eq!(r.codigo, 403, "token {token:?} passou");
                assert_eq!(r.corpo, "{}");
            }
            _ => panic!("token {token:?} passou"),
        }
    }
}

#[test]
fn corpo_que_nao_e_json_leva_erro_de_protocolo() {
    let (codigo, corpo, _) = chamar("isto não é json", &todas());
    assert_eq!(codigo, 200);
    let v = j(&corpo);
    assert_eq!(v["error"]["code"], -32700);
    assert!(v["id"].is_null());
}

#[test]
fn tools_call_aceita_o_nome_com_e_sem_prefixo() {
    for nome in ["listar_nos", "mcp__mutirao__listar_nos"] {
        let corpo = format!(
            r#"{{ "jsonrpc": "2.0", "id": 2, "method": "tools/call", "params": {{ "name": "{nome}", "arguments": {{}} }} }}"#
        );
        let (_, _, executar) = chamar(&corpo, &todas());
        let (id, n, args) = executar.expect("devia mandar executar");
        assert_eq!(id, j("2"));
        assert_eq!(n, "listar_nos", "falhou com {nome}");
        assert_eq!(args, j("{}"));
    }
    assert_eq!(sem_prefixo("mcp__mutirao__ler_nota"), "ler_nota");
    assert_eq!(sem_prefixo("mcp__crm__buscar"), "mcp__crm__buscar");
}

#[test]
fn erro_de_ferramenta_chega_ao_modelo_em_vez_de_virar_erro_de_protocolo() {
    let r = resposta_da_ferramenta(j("3"), Err(Erro::nao_encontrado("nó", "Isolado")));
    let v = j(&r.corpo);
    assert!(v["error"].is_null(), "virou erro de protocolo: {}", r.corpo);
    assert_eq!(v["result"]["isError"], true);
    assert!(v["result"]["content"][0]["text"].as_str().unwrap().contains("Isolado"));
}

#[test]
fn o_conteudo_de_uma_leitura_vai_cru_e_o_resto_vai_como_json() {
    let r = resposta_da_ferramenta(j("4"), Ok(j(r#"{ "conteudo": "linha 1\nlinha 2" }"#)));
    let v = j(&r.corpo);
    assert_eq!(v["result"]["content"][0]["text"], "linha 1\nlinha 2");
    assert_eq!(v["result"]["isError"], false);
    assert_eq!(como_texto(&j(r#"{ "bytes": 12 }"#)), r#"{"bytes":12}"#);
    assert_eq!(
        como_texto(&j(r#"{ "conteudo": "x", "de": "y" }"#)),
        r#"{"conteudo":"x","de":"y"}"#
    );
}

#[test]
fn o_tools_list_esconde_o_que_o_papel_nao_alcanca() {
    let nomes = |corpo: &str| -> Vec<String> {
        j(corpo)["result"]["tools"]
            .as_array()
            .unwrap()
            .iter()
            .map(|t| t["name"].as_str().unwrap().to_string())
            .collect()
    };
    let listar = r#"{ "jsonrpc": "2.0", "id": 1, "method": "tools/list" }"#;
    let sem_papel = nomes(&chamar(listar, &todas()).1);
    assert!(sem_papel.contains(&"escrever_arquivo".to_string()));
    assert!(!sem_papel.contains(&"recrutar".to_string()));

    let so_leitura = vec!["ler_arquivo".to_string(), "ler_nota".to_string()];
    let com_papel = nomes(&chamar(listar, &so_leitura).1);
    assert_eq!(com_papel, vec!["ler_nota".to_string(), "ler_arquivo".to_string()]);
    assert!(com_papel.len() < sem_papel.len());

    let chamada = r#"{ "jsonrpc": "2.0", "id": 2, "method": "tools/call",
        "params": { "name": "escrever_arquivo", "arguments": { "caminho": "x.txt", "conteudo": "oi" } } }"#;
    let (codigo, corpo, executar) = chamar(chamada, &so_leitura);
    assert!(executar.is_none(), "escondido mas não impedido");
    assert_eq!(codigo, 200);
    assert_eq!(j(&corpo)["result"]["isError"], true);
}

#[test]
fn o_papel_barra_a_ferramenta_mesmo_chamada_direto_pelo_mcp() {
    // Esconder da lista não é impedir: o corpo do `tools/call` quem monta é o
    // processo do agente.
    let (n, prompt, ferramentas, autonomia) = nucleo::papeis::embutidos()
        .into_iter()
        .find(|e| e.0 == "Pesquisador")
        .expect("o Pesquisador vem na biblioteca");
    let pesquisador = nucleo::modelo::Papel {
        id: "papel-pesquisador".into(),
        nome: n.to_string(),
        prompt: prompt.to_string(),
        ferramentas: ferramentas.into_iter().map(String::from).collect(),
        autonomia,
        modelo: None,
        embutido: true,
        criado_em: 0,
        mcp: vec![],
    };
    let permitidas = ferramentas_do_papel(Some(&pesquisador));
    let corpo = r#"{ "jsonrpc": "2.0", "id": 1, "method": "tools/call",
        "params": { "name": "escrever_arquivo",
                    "arguments": { "caminho": "nao-deveria.txt", "conteudo": "oi" } } }"#;
    let (codigo, resposta, executar) = chamar(corpo, &permitidas);
    assert_eq!(codigo, 200);
    assert_eq!(j(&resposta)["result"]["isError"], true, "o Pesquisador gravou: {resposta}");
    // Recusar e gravar assim mesmo seria pior que não recusar: nada roda.
    assert!(executar.is_none(), "a ferramenta chegou a ser executada");
}
