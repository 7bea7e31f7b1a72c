use nucleo::erro::{Erro, ErroIpc, MENSAGEM_INTERNA};

#[test]
fn cada_erro_tem_codigo_estavel_e_frase() {
    assert_eq!(Erro::nao_encontrado("workspace", "w1").codigo(), "nao_encontrado");
    assert_eq!(Erro::nao_encontrado("workspace", "w1").mensagem(), "workspace não encontrado: w1");
    assert_eq!(Erro::invalido("x").codigo(), "invalido");
    assert_eq!(Erro::ForaDoEscopo.codigo(), "fora_do_escopo");
    assert_eq!(Erro::ForaDoEscopo.mensagem(), "caminho fora do escopo do workspace");
    assert_eq!(Erro::Banco("travou".into()).mensagem(), "banco: travou");
}

#[test]
fn erro_de_baixo_nao_chega_cru_na_interface() {
    let e = ErroIpc::do_erro(&Erro::Banco("UNIQUE constraint failed".into()));
    assert_eq!(e.codigo, "banco");
    assert_eq!(e.mensagem, MENSAGEM_INTERNA);
    let e = ErroIpc::do_erro(&Erro::Io("disco cheio".into()));
    assert_eq!(e.codigo, "io");
    assert_eq!(e.mensagem, MENSAGEM_INTERNA);
}

#[test]
fn erro_de_dominio_chega_com_a_propria_frase() {
    let e = ErroIpc::do_erro(&Erro::invalido("nome vazio"));
    assert_eq!(e.codigo, "invalido");
    assert_eq!(e.mensagem, "nome vazio");
    let e = ErroIpc::do_erro(&Erro::nao_encontrado("nó", "n9"));
    assert_eq!(e.codigo, "nao_encontrado");
    assert_eq!(e.mensagem, "nó não encontrado: n9");
}
