use nucleo::arquivos::ItemArquivo;
use nucleo::erro::Erro;
use nucleo::ferramentas::{
    catalogo, escolher_vizinho, gravacao_da_nota, resultado_de_texto_gravado, interpretar, itens_visiveis, nome_completo, nomes_do_catalogo,
    nos_visiveis, prazo_do_pedido, prazo_pedido, resultado_de_conclusao, resultado_de_gravacao,
    resultado_de_mensagem, resultado_de_texto, texto_da_nota, Chamada, NOMES_DO_CATALOGO,
};
use nucleo::modelo::{TipoCabo, TipoNo, PRAZO_MENSAGEM_PADRAO_MS, PRAZO_MENSAGEM_TETO_MS};

fn j(s: &str) -> serde_json::Value {
    serde_json::from_str(s).unwrap()
}

#[test]
fn o_prazo_pedido_pelo_agente_tem_teto() {
    assert_eq!(prazo_pedido(&j("{}")), PRAZO_MENSAGEM_PADRAO_MS);
    assert_eq!(prazo_pedido(&j(r#"{ "prazo_ms": 5000 }"#)), 5_000);
    assert_eq!(prazo_pedido(&j(r#"{ "prazo_ms": 999999999 }"#)), PRAZO_MENSAGEM_TETO_MS);
    assert_eq!(prazo_pedido(&j(r#"{ "prazo_ms": 0 }"#)), PRAZO_MENSAGEM_PADRAO_MS);
    assert_eq!(prazo_do_pedido(Some(1)), 1);
    assert_eq!(prazo_do_pedido(None), PRAZO_MENSAGEM_PADRAO_MS);
}

#[test]
fn o_nome_que_o_modelo_ve_leva_o_prefixo_do_servidor() {
    assert_eq!(nome_completo("enviar_para"), "mcp__mutirao__enviar_para");
}

#[test]
fn nome_ambiguo_nao_vira_chute() {
    let vizinhos = vec![
        ("id-1".to_string(), "Redator".to_string()),
        ("id-2".to_string(), " redator ".to_string()),
        ("id-3".to_string(), "Revisor".to_string()),
    ];
    match escolher_vizinho(&vizinhos, "Redator") {
        Err(Erro::Invalido(m)) => assert!(m.contains("mais de um"), "{m}"),
        outro => panic!("nome ambíguo devia ser erro, veio {outro:?}"),
    }
    assert_eq!(escolher_vizinho(&vizinhos, "  REVISOR ").unwrap(), "id-3");
}

#[test]
fn no_sem_cabo_simplesmente_nao_existe() {
    let vizinhos = vec![("id-1".to_string(), "Redator".to_string())];
    match escolher_vizinho(&vizinhos, "Isolado") {
        Err(e) => assert_eq!(e.mensagem(), "nó não encontrado: Isolado"),
        Ok(id) => panic!("achou {id}"),
    }
}

#[test]
fn ferramenta_que_nao_existe_da_erro_e_nao_panica() {
    match interpretar("formatar_o_disco", &j("{}")) {
        Err(Erro::Invalido(m)) => assert_eq!(m, "não existe ferramenta chamada formatar_o_disco"),
        outro => panic!("veio {outro:?}"),
    }
    match interpretar("enviar_para", &j(r#"{ "no": "Redator" }"#)) {
        Err(Erro::Invalido(m)) => assert_eq!(m, "falta o campo \"mensagem\""),
        outro => panic!("veio {outro:?}"),
    }
    match interpretar("enviar_para", &j(r#"{ "no": "   ", "mensagem": "oi" }"#)) {
        Err(Erro::Invalido(m)) => assert_eq!(m, "falta o campo \"no\""),
        outro => panic!("veio {outro:?}"),
    }
}

#[test]
fn as_refs_citadas_chegam_junto_com_o_recado() {
    let c = interpretar(
        "enviar_para",
        &j(r#"{ "no": "Redator", "mensagem": "escreva a introdução", "refs": ["Briefing", "contrato.txt"] }"#),
    )
    .unwrap();
    match c {
        Chamada::Mensagem { no, corpo, prazo_ms, espera } => {
            assert_eq!(no, "Redator");
            assert_eq!(corpo, "escreva a introdução\n\n(citado: Briefing, contrato.txt)");
            assert_eq!(prazo_ms, PRAZO_MENSAGEM_PADRAO_MS);
            assert!(espera);
        }
        outro => panic!("veio {outro:?}"),
    }
}

#[test]
fn avisar_entrega_e_volta_na_hora() {
    match interpretar("avisar", &j(r#"{ "no": "Redator", "mensagem": "terminei a parte 1" }"#)).unwrap() {
        Chamada::Mensagem { espera, corpo, .. } => {
            assert!(!espera, "aviso não devia esperar resposta");
            assert_eq!(corpo, "terminei a parte 1");
        }
        outro => panic!("veio {outro:?}"),
    }
}

#[test]
fn escrever_nota_so_acrescenta_quando_pedem() {
    match interpretar("escrever_nota", &j(r#"{ "nota": "B", "conteudo": "x", "modo": "acrescentar" }"#))
        .unwrap()
    {
        Chamada::EscreverNota { acrescentar, .. } => assert!(acrescentar),
        outro => panic!("veio {outro:?}"),
    }
    match interpretar("escrever_nota", &j(r#"{ "nota": "B", "conteudo": "x", "modo": "substituir" }"#))
        .unwrap()
    {
        Chamada::EscreverNota { acrescentar, nota, conteudo } => {
            assert!(!acrescentar);
            assert_eq!((nota.as_str(), conteudo.as_str()), ("B", "x"));
        }
        outro => panic!("veio {outro:?}"),
    }
}

#[test]
fn as_outras_ferramentas_leem_o_que_o_catalogo_promete() {
    assert!(matches!(interpretar("listar_nos", &j("{}")).unwrap(), Chamada::ListarNos));
    match interpretar("listar_arquivos", &j("{}")).unwrap() {
        Chamada::ListarArquivos { caminho } => assert_eq!(caminho, ""),
        outro => panic!("veio {outro:?}"),
    }
    match interpretar("perguntar_humano", &j(r#"{ "pergunta": "qual?", "opcoes": ["a", 1, "b"] }"#))
        .unwrap()
    {
        Chamada::PerguntarHumano { pergunta, opcoes } => {
            assert_eq!(pergunta, "qual?");
            assert_eq!(opcoes, vec!["a".to_string(), "b".to_string()]);
        }
        outro => panic!("veio {outro:?}"),
    }
    match interpretar("recrutar", &j(r#"{ "papel": "Redator", "nome": "Bruno" }"#)).unwrap() {
        Chamada::Recrutar { papel, nome } => assert_eq!((papel.as_str(), nome.as_str()), ("Redator", "Bruno")),
        outro => panic!("veio {outro:?}"),
    }
    match interpretar("dispensar", &j(r#"{ "no": "Bia" }"#)).unwrap() {
        Chamada::Dispensar { no } => assert_eq!(no, "Bia"),
        outro => panic!("veio {outro:?}"),
    }
    match interpretar("concluir", &j(r#"{ "resumo": "pronto" }"#)).unwrap() {
        Chamada::Concluir { resumo } => assert_eq!(resumo, "pronto"),
        outro => panic!("veio {outro:?}"),
    }
}

#[test]
fn o_catalogo_lista_as_ferramentas_na_ordem_com_os_obrigatorios() {
    let c = catalogo();
    assert_eq!(c.len(), NOMES_DO_CATALOGO.len());
    let nomes: Vec<&str> = c.iter().map(|t| t["name"].as_str().unwrap()).collect();
    assert_eq!(nomes, nomes_do_catalogo());
    let enviar = &c[0]["inputSchema"];
    assert_eq!(enviar["type"], "object");
    assert_eq!(enviar["required"], j(r#"["no", "mensagem"]"#));
    assert_eq!(enviar["additionalProperties"], false);
    assert!(enviar["properties"]["refs"]["items"]["type"] == "string");
    assert!(c[2]["inputSchema"].get("required").is_none(), "listar_nos não exige nada");
    // O que o catálogo diz que é obrigatório é o que a execução exige.
    for t in &c {
        let nome = t["name"].as_str().unwrap();
        if let Some(req) = t["inputSchema"]["required"].as_array() {
            let faltando = req[0].as_str().unwrap();
            match interpretar(nome, &j("{}")) {
                Err(Erro::Invalido(m)) => assert_eq!(m, format!("falta o campo \"{faltando}\"")),
                outro => panic!("{nome} aceitou sem {faltando}: {outro:?}"),
            }
        } else {
            assert!(interpretar(nome, &j("{}")).is_ok(), "{nome}");
        }
    }
}

#[test]
fn as_respostas_das_ferramentas_sao_o_que_o_modelo_le() {
    assert_eq!(
        resultado_de_mensagem(Some("feito".into()), "Redator"),
        j(r#"{ "resposta": "feito", "de": "Redator" }"#)
    );
    assert_eq!(resultado_de_mensagem(None, "Redator"), j(r#"{ "entregue": true }"#));
    assert_eq!(resultado_de_texto("conteudo", "# Briefing"), j(r##"{ "conteudo": "# Briefing" }"##));
    assert_eq!(resultado_de_gravacao(42), j(r#"{ "bytes": 42 }"#));
    assert_eq!(resultado_de_conclusao(), j(r#"{ "ok": true }"#));

    let nos = nos_visiveis(&vec![
        ("Redator".to_string(), TipoNo::Agente, TipoCabo::FalaCom),
        ("Briefing".to_string(), TipoNo::Nota, TipoCabo::LeNota),
        ("Parecer".to_string(), TipoNo::Nota, TipoCabo::EscreveNota),
    ]);
    assert_eq!(
        nos,
        j(r#"{ "nos": [
            { "nome": "Redator", "tipo": "agente", "relacao": "posso falar" },
            { "nome": "Briefing", "tipo": "nota", "relacao": "posso ler" },
            { "nome": "Parecer", "tipo": "nota", "relacao": "posso escrever" }
        ] }"#)
    );
    assert_eq!(nos_visiveis(&vec![]), j(r#"{ "nos": [] }"#));

    let itens = itens_visiveis(&vec![ItemArquivo {
        caminho: "sub/a.txt".into(),
        nome: "a.txt".into(),
        pasta: false,
        tamanho: 7,
    }]);
    assert_eq!(
        itens,
        j(r#"{ "itens": [ { "caminho": "sub/a.txt", "nome": "a.txt", "pasta": false, "tamanho": 7 } ] }"#)
    );

    assert_eq!(texto_da_nota("um\n", "dois", true), "um\ndois");
    assert_eq!(texto_da_nota("um\n", "dois", false), "dois");
}

#[test]
fn nome_ambiguo_diz_qual_nome_e_pede_para_renomear() {
    let vizinhos = vec![("a".to_string(), "Redator".to_string()), ("b".to_string(), "REDATOR".to_string())];
    match escolher_vizinho(&vizinhos, "redator") {
        Err(Erro::Invalido(m)) => {
            assert_eq!(m, "há mais de um nó chamado \"redator\" ligado a você; renomeie um deles")
        }
        outro => panic!("veio {outro:?}"),
    }
}

#[test]
fn o_catalogo_declara_o_tipo_de_cada_argumento() {
    let c = catalogo();
    let props = |i: usize| c[i]["inputSchema"]["properties"].clone();
    let enviar = props(0);
    assert_eq!(enviar["prazo_ms"]["type"], "integer");
    assert_eq!(enviar["refs"]["type"], "array");
    assert_eq!(enviar["refs"]["items"]["type"], "string");
    assert_eq!(enviar["no"]["type"], "string");
    assert_eq!(enviar.as_object().unwrap().len(), 4);
    let escrever = props(4);
    assert_eq!(c[4]["name"], "escrever_nota");
    assert_eq!(escrever["modo"]["type"], "string");
    assert_eq!(escrever["modo"]["enum"][0], "substituir");
    assert_eq!(escrever["modo"]["enum"][1], "acrescentar");
    assert_eq!(props(2).as_object().unwrap().len(), 0);
    assert_eq!(props(8)["opcoes"]["items"]["type"], "string");
}

#[test]
fn acrescentar_na_nota_responde_os_bytes_do_arquivo_inteiro() {
    let (texto, resposta) = gravacao_da_nota("primeira linha\n", "segunda", true);
    assert_eq!(texto, "primeira linha\nsegunda");
    assert_eq!(resposta["bytes"], 22);
    let (texto, resposta) = gravacao_da_nota("primeira linha\n", "só isto", false);
    assert_eq!(texto, "só isto");
    assert_eq!(resposta["bytes"], 8);
    assert_eq!(resultado_de_texto_gravado("ação")["bytes"], 6);
}
